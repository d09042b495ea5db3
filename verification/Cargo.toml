[package]
name = "flypad"
version = "0.1.0"
edition = "2021"
publish = false

[dependencies]
anyhow = "=1.0.104"
iced = { version = "=0.14.0", default-features = false, features = ["tokio", "wayland"] }
reqwest = "=0.13.5"
serde_json = "=1.0.154"
tokio = { version = "=1.54.1", features = ["fs", "io-util"] }
