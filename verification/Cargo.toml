[package]
name = "vk_bot"
version = "0.1.0"
edition = "2021"
publish = false

[dependencies]
regex = "*"
serde_json = "*"
rand = "*"
serde = { version = "*", features = ["derive"] }
rvk = "*"
rocket = { version = "*", features = ["json"] }
