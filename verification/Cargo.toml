[package]
name = "enceladus"
version = "0.1.0"
edition = "2021"
publish = false

[dependencies]
chrono = "=0.4.45"
diesel = { version = "=2.3.14", features = ["postgres", "serde_json"] }
dotenv = "=0.15.0"
hashbrown = "=0.9.1"
itertools = "=0.10.5"
jsonwebtoken = "=9.3.1"
lazy_static = "=1.5.1"
lru-cache = "=0.1.2"
openssl = "=0.10.81"
parking_lot = "=0.12.5"
reqwest = { version = "=0.12.28", default-features = false, features = ["blocking", "default-tls", "json"] }
rocket = { version = "=0.5.2", features = ["json", "secrets"] }
rocket_cors = "=0.6.0"
serde = { version = "=1.0.229", features = ["derive"] }
serde_json = "=1.0.154"
tokio = { version = "=1.54.1", features = ["rt", "time"] }
uuid = { version = "=1.29.0", features = ["v4"] }
ws = "=0.9.2"
