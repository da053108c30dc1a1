[package]
name = "game_core"
version = "0.1.0"
edition = "2021"
publish = false

[dependencies]
jni = "0.21"
lazy_static = "1"
reqwest = { version = "0.12", default-features = false }
serde = { version = "1", features = ["derive"] }
serde_json = "1"
tokio = { version = "1", features = ["rt"] }
