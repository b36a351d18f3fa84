[package]
name = "repodb"
version = "0.1.0"
edition = "2021"
publish = false

[dependencies]
base64 = "=0.23.1"
gitwrap = "=0.11.0"
itoa = "=1.0.18"
ryu = "=1.0.23"
serde_json = { version = "=1.0.154", default-features = false, features = ["std"] }
