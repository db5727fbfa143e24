[package]
name = "mini_omaha"
version = "0.1.0"
edition = "2021"
publish = false

[dependencies]
random-string = "*"
serde = { version = "1", features = ["derive"] }
serde_json = "1"
