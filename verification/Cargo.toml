[package]
name = "anki_direct"
version = "0.1.0"
edition = "2021"
publish = false

[dependencies]
indexmap = "*"
url = "*"
serde_json = "*"
reqwest = { version = "*", default-features = false, features = ["blocking"] }
