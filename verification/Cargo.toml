[package]
name = "oauth_pkce"
version = "0.1.0"
edition = "2021"
publish = false

[dependencies]
base64 = "*"
hex = "*"
rand = "*"
reqwest = { version = "*", default-features = false, features = ["blocking"] }
serde_json = "*"
sha2 = "*"
urlencoding = "*"
webbrowser = "*"
