[package]
name = "dns_cookie"
version = "0.1.0"
edition = "2021"
publish = false

[dependencies]
no-std-net = "0.6"
siphasher = "1"
time = { version = "0.3", default-features = false }
