[package]
name = "dynamic_gas"
version = "0.1.0"
edition = "2021"
publish = false

[dependencies]
alloy = { version = "1", default-features = false, features = ["network", "providers", "rpc-types", "transports"] }
tracing = "0.1"
