[package]
name = "nats_bridge"
version = "0.1.0"
edition = "2021"
publish = false

[dependencies]
async-nats = { version = "=0.50.0", default-features = false }
futures = "=0.3.34"
iced = { version = "=0.12.1", default-features = false, features = ["tokio"] }
tokio = { version = "=1.54.1", features = ["macros", "sync", "time"] }
