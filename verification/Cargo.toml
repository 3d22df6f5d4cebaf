[package]
name = "gateway_supervisor"
version = "0.1.0"
edition = "2021"
publish = false

[dependencies]
urlencoding = "2"
serde = { version = "1", features = ["derive"] }
serde_json = "1"
tokio = { version = "1", features = ["rt-multi-thread", "time", "macros"] }
reqwest = { version = "0.12", default-features = false, features = ["json"] }
