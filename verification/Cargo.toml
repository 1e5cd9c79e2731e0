[package]
name = "video_processing_service"
version = "0.1.0"
edition = "2021"
publish = false

[dependencies]
actix-web = "4"
base64 = "0.22"
object_store = { version = "*", features = ["gcp"] }
serde = { version = "1", features = ["derive"] }
serde_json = "1"
