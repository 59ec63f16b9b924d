[package]
name = "hftbacktest"
version = "0.1.0"
edition = "2021"
publish = false

[dependencies]
serde = "1"
zip = { version = "*", default-features = false, features = ["deflate"] }
