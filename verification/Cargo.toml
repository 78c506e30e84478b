[package]
name = "curl"
version = "0.1.0"
edition = "2021"
publish = false

[dependencies]
curl-sys = { version = "*", default-features = false }
libc = "0.2"
openssl-sys = "*"
openssl-probe = "*"
