[package]
name = "reality"
version = "0.1.0"
edition = "2021"
publish = false

[dependencies]
automerge = "*"
dashmap = "*"
tokio = { version = "*", features = ["sync", "rt-multi-thread", "macros", "net"] }
axum = { version = "*", features = ["ws"] }
tower-http = { version = "*", features = ["cors", "fs"] }
serde = { version = "*", features = ["derive"] }
serde_json = "*"
futures-util = "*"
