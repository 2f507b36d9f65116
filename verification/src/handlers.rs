//! Event kinds, handler registrations, the registry and the dispatcher.

pub mod events;
pub mod host;
pub mod laws;
