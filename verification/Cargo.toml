[package]
name = "app_store_connect"
version = "0.1.0"
edition = "2021"
publish = false

[dependencies]
dirs = "5"
jsonwebtoken = "8"
log = "0.4"
reqwest = { version = "0.11", default-features = false, features = ["blocking", "json", "rustls-tls"] }
serde_json = { version = "1", features = ["preserve_order"] }
