[package]
name = "cardego_server"
version = "0.1.0"
edition = "2021"
publish = false

[dependencies]
actix-files = "=0.7.2"
actix-web = "=4.18.1"
anyhow = "=1.0.104"
log = "=0.4.34"
reqwest = { version = "=0.13.5", default-features = false }
serde = { version = "=1.0.229", features = ["derive"] }
