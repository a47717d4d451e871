[package]
name = "skjalftalisa"
version = "0.1.0"
edition = "2021"
publish = false

[dependencies]
chrono = "0.4"
geo = "*"
reqwest = { version = "*", default-features = false, features = ["json", "rustls-tls"] }
serde = { version = "1", features = ["derive"] }
serde_json = "1"
