[package]
name = "vecx"
version = "0.1.0"
edition = "2021"
publish = false

[dependencies]
anyhow = "*"
chrono = "*"
clap = "*"
log = "*"
log4rs = "*"
rand = "*"
reqwest = { version = "*", default-features = false, features = ["blocking", "json"] }
serde = { version = "*", features = ["derive"] }
serde_json = "*"
serde_yaml = "*"
url = "*"
uuid = { version = "*", features = ["v4"] }
