[package]
name = "asspp_core"
version = "0.1.0"
edition = "2021"
publish = false

[dependencies]
base64 = "0.22"
plist = "1"
serde = { version = "1", features = ["derive"] }
serde_json = "1"
url = "2"
urlencoding = "2"
uuid = { version = "1", features = ["v4"] }
worker = "*"
zip = { version = "2", default-features = false, features = ["deflate"] }
