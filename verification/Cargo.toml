[package]
name = "agent_events"
version = "0.1.0"
edition = "2021"
publish = false

[dependencies]
log = "0.4"
pyo3 = { version = "0.20", features = ["auto-initialize"] }
pyo3-asyncio = { version = "0.20", features = ["async-std-runtime"] }
