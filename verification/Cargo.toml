[package]
name = "axum_auth"
version = "0.1.0"
edition = "2021"

[dependencies]
http = "*"
axum-core = "*"

[dev-dependencies]
base64 = "*"
