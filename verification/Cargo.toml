[package]
name = "karga-http"
version = "0.1.0"
edition = "2021"
publish = false

[dependencies]
hdrhistogram = { version = "7", default-features = false }
karga = "*"
reqwest = { version = "*", default-features = false }
serde = { version = "1", features = ["derive"] }
tracing = "0.1"
typed-builder = "*"
