[package]
name = "rust_email_newsletter"
version = "0.1.0"
edition = "2021"
publish = false

[dependencies]
rand = "=0.10.3"
argon2 = "=0.6.0"
base64 = "=0.23.1"
uuid = { version = "*", features = ["v4"] }
chrono = { version = "*", default-features = false, features = ["clock"] }
