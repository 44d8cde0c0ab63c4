[package]
name = "re_mp4"
version = "0.1.0"
edition = "2021"
publish = false

[dependencies]
byteorder = "1"
serde = { version = "1", features = ["derive"] }
serde_json = "1"
