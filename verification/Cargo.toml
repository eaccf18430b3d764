[package]
name = "async-tls-lite"
version = "0.1.0"
edition = "2021"
publish = false

[dependencies]
async-channel = "=1.9.0"
futures = "=0.3.34"
futures-util = { version = "=0.3.34", features = ["io"] }
rustls = "=0.18.1"
smol = "=0.1.18"
webpki = "=0.21.4"
webpki-roots = "=0.20.0"
