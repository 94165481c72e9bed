[package]
name = "proxy_server"
version = "0.1.0"
edition = "2021"
publish = false

[dependencies]
actix-service = "=1.0.6"
actix-web = { version = "=3.3.3", default-features = false }
bson = "=1.2.4"
chrono = { version = "=0.4.45", features = ["serde"] }
clap = "=2.34.0"
env_logger = "=0.8.4"
futures = "=0.3.34"
ipfs-api = { version = "=0.10.0", default-features = false, features = ["with-actix"] }
log = "=0.4.34"
mongodb = "=1.2.5"
serde = { version = "=1.0.229", features = ["derive"] }
serde_json = "=1.0.154"
thiserror = "=1.0.69"
url = "=2.5.8"
uuid = { version = "=0.8.2", features = ["serde", "v4"] }
