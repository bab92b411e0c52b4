[package]
name = "state_accessor"
version = "0.1.0"
edition = "2021"
publish = false

[dependencies]
lru-cache = "0.1"
ruma = { version = "*", features = ["events"] }
serde_json = { version = "1", features = ["raw_value"] }
tracing = "0.1"
