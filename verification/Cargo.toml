[package]
name = "ssl_file_server"
version = "0.1.0"
edition = "2021"
publish = false

[dependencies]
base64 = "=0.22.1"
chrono = { version = "=0.4.45", features = ["serde"] }
crc = "=3.4.0"
dashmap = "=6.2.1"
jsonwebtoken = "=9.3.1"
serde = { version = "=1.0.229", features = ["derive"] }
serde_json = { version = "=1.0.154", features = ["preserve_order"] }
uuid = { version = "=1.29.1", features = ["v4"] }
tokio = { version = "=1.54.1", features = ["full"] }
sqlx = { version = "=0.8.6", default-features = false, features = ["mysql", "runtime-tokio", "chrono", "macros"] }
openssl = "=0.10.82"
env_logger = "=0.11.11"
log = "=0.4.35"
async-trait = "=0.1.92"
lazy_static = "=1.5.1"
