[package]
name = "gameshow"
version = "0.1.0"
edition = "2021"
publish = false

[dependencies]
rand = "0.8"
serde = { version = "1", features = ["derive"] }
serde_json = "1"
tokio = { version = "1", features = ["sync", "rt-multi-thread", "macros", "time"] }
tokio-stream = { version = "0.1", features = ["sync"] }
actix-web = "4"
futures = "0.3"
