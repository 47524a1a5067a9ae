[package]
name = "redactor"
version = "0.1.0"
edition = "2021"
publish = false

[dependencies]
actix-web = { version = "4", default-features = false, features = ["macros"] }
dotenv = "0.15"
env_logger = "0.11"
futures = "0.3"
futures-util = "0.3"
hf-hub = { version = "0.4", default-features = false, features = ["tokio", "rustls-tls"] }
log = "0.4"
serde = { version = "1", features = ["derive"] }
serde_json = "1"
thiserror = "1"
tokio = { version = "1", features = ["macros", "rt-multi-thread", "sync", "time"] }
