[package]
name = "correlation_broker"
version = "0.1.0"
edition = "2021"
publish = false

[dependencies]
futures = "0.3"
tokio = { version = "1", features = ["rt", "rt-multi-thread", "time", "macros", "sync"] }
uuid = { version = "1", features = ["v4"] }
async-trait = "0.1"
