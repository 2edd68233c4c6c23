[package]
name = "uniflow"
version = "0.1.0"
edition = "2021"
publish = false

[dependencies]
any_spawner = { version = "*", features = ["futures-executor", "tokio"] }
futures = "*"
reactive_graph = { version = "*", features = ["effects"] }
