[package]
name = "s2d"
version = "0.1.0"
edition = "2021"
publish = false

[dependencies]
actix-multipart = "*"
actix-web = "*"
confy = "*"
env_logger = "*"
futures-util = "*"
log = "*"
mime = "*"
rand = "*"
serde = { version = "*", features = ["derive"] }
serde_json = "*"
serenity = { version = "*", default-features = false, features = ["builder", "http", "model", "rustls_backend", "utils"] }
