[package]
name = "stockswap"
version = "0.1.0"
edition = "2021"
publish = false

[dependencies]
hmac = "=0.12.1"
sha2 = "=0.10.9"
base64 = "=0.22.1"
serde = { version = "=1.0.229", features = ["derive"] }
serde_json = "=1.0.154"
serde_urlencoded = "=0.7.1"
chrono = { version = "=0.4.45", default-features = false, features = ["clock", "std"] }
dotenv = "=0.15.0"
env_logger = { version = "=0.11.11", default-features = false }
actix-web = { version = "=4.18.1", default-features = false, features = ["macros"] }
actix-cors = "=0.7.2"
reqwest = { version = "=0.12.28", default-features = false, features = ["json", "rustls-tls"] }
anchor-lang = { version = "=0.31.2", features = ["init-if-needed"] }
anchor-spl = "=0.31.2"
