[package]
name = "monoryx"
version = "1.0.0"
edition = "2021"
publish = false

[dependencies]
semver = "1"
serde = { version = "1", features = ["derive"] }
serde_json = "1"
toml = "0.8"
md5 = "0.7"
uuid = { version = "1", features = ["v4"] }
chrono = "0.4"
url = "2"
directories = "5"
hex = "0.4"
sha2 = "0.10"

[dev-dependencies]
tempfile = "3"
