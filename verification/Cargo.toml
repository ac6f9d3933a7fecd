[package]
name = "chatgpt_desktop"
version = "0.1.0"
edition = "2021"
publish = false

[dependencies]
image = { version = "0.25", default-features = false, features = ["png"] }
url = "2"
open = "5"
serde = { version = "1", features = ["derive"] }
serde_json = "1"
