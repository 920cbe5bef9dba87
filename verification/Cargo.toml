[package]
name = "onvif_ptz"
version = "0.1.0"
edition = "2021"
publish = false

[dependencies]
base64 = "*"
chrono = "*"
rand = "*"
sha1 = "*"
url = "*"
xml-rs = "*"
reqwest = { version = "*", default-features = false }
tokio = { version = "*", default-features = false, features = ["time"] }
