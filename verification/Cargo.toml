[package]
name = "image_pool"
version = "0.1.0"
edition = "2021"
publish = false

[dependencies]
base64 = "0.10"
mime = "0.3"
uuid = { version = "1", features = ["v4"] }
image = { version = "0.24", default-features = false, features = ["png", "jpeg"] }
actix-web = { version = "0.7", default-features = false }
futures = "0.1"
bytes = "0.4"
serde = { version = "1", features = ["derive"] }
serde_json = "1"
