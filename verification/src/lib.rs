//! An agent with a start/stop lifecycle and a registry of event handlers that
//! are notified, in registration order, at each lifecycle transition.

pub mod agent;
pub mod handlers;
