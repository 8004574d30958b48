[package]
name = "minecraft_utils"
version = "0.1.0"
edition = "2021"
publish = false

[dependencies]
sha1 = "=0.11.0"
minreq = { version = "=3.0.0", features = ["json-using-serde"] }
serde = { version = "=1.0.229", features = ["derive"] }
serde_json = "=1.0.151"
base64 = "=0.23.1"
thiserror = "=2.0.21"
