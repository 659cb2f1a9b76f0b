[package]
name = "cafe_relay"
version = "0.1.0"
edition = "2021"
publish = false

[dependencies]
console = { version = "=0.16.6", default-features = false, features = ["std"] }
serde_json = "=1.0.151"
reqwest = { version = "=0.13.5", default-features = false, features = ["blocking", "json"] }
