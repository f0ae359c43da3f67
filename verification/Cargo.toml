[package]
name = "awc-uds"
version = "0.1.0"
edition = "2021"
publish = false

[dependencies]
actix-rt = "2"
actix-service = "2"
actix-tls = "3"
awc = { version = "3", default-features = false }

[dev-dependencies]
actix-web = { version = "4", default-features = false }
tempfile = "3"
