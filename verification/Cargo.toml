[package]
name = "tuta_login_core"
version = "0.1.0"
edition = "2021"
publish = false

[dependencies]
base64 = "0.22"
sha2 = "0.10"
argon2 = "0.5"
