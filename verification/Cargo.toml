[package]
name = "enseada"
version = "0.1.0"
edition = "2021"
publish = false

[dependencies]
regex = "=1.13.1"
uuid = { version = "=1.29.1", features = ["v4"] }
chrono = "=0.4.45"
url = "=2.5.8"
http = "=1.5.0"
serde = { version = "=1.0.229", features = ["derive"] }
serde_json = "=1.0.154"
serde_urlencoded = "=0.7.1"
log = "=0.4.35"
lazy_static = "=1.5.1"
async-trait = "=0.1.92"
futures = "=0.3.34"
bytes = "=1.12.1"
tokio = { version = "=1.54.1", features = ["sync", "rt", "macros"] }
actix-web = "=4.18.1"
actix-rt = "=2.15.0"
actix-session = { version = "=0.11.0", features = ["cookie-session"] }
actix-web-httpauth = "=0.8.3"
reqwest = { version = "=0.12.28", default-features = false, features = ["json", "rustls-tls"] }
log4rs = "=1.4.0"
derive_more = "=2.1.1"
derivative = "=2.2.0"
hold = "=0.1.0-alpha.5"
config = "=0.15.27"
dotenv = "=0.15.0"
hmac = "=0.12.1"
sha2 = "=0.10.9"
