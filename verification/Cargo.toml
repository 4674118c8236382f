[package]
name = "image_store"
version = "0.1.0"
edition = "2021"
publish = false

[dependencies]
image = { version = "*", default-features = false, features = ["png"] }
uuid = { version = "*", features = ["v4"] }
base64 = "*"
tokio = { version = "*", features = ["rt", "rt-multi-thread", "macros"] }
reqwest = { version = "*", default-features = false }
