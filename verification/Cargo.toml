[package]
name = "chatto_desktop"
version = "0.1.0"
edition = "2021"
publish = false

[dependencies]
url = "2"
base64 = "0.22"
mime_guess = "2"
serde_json = "1"
ureq = "2"
