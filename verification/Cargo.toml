[package]
name = "clip_serve"
version = "0.1.0"
edition = "2021"
publish = false

[dependencies]
serde_json = "*"
serde = { version = "*", features = ["derive"] }
actix-web = "*"
actix-multipart = "*"
tokio = { version = "*", features = ["sync", "time", "rt-multi-thread", "macros"] }
log = "*"
env_logger = "*"
anyhow = "*"
ort = "=2.0.0-rc.13"
