[package]
name = "cis_client"
version = "0.1.0"
edition = "2021"
publish = false

[dependencies]
biscuit = "*"
chrono = "0.4"
percent-encoding = "1.0"
reqwest = { version = "0.12", default-features = false, features = ["blocking", "json"] }
serde_json = "1"
