[package]
name = "viewer_hub"
version = "0.1.0"
edition = "2021"
publish = false

[dependencies]
futures = "0.3"
once_cell = "1"
serde_json = "1"
tokio = { version = "1", features = ["full"] }
tokio-stream = "0.1"
uuid = "1"
warp = "0.3"
