[package]
name = "snowflake-api"
version = "0.1.0"
edition = "2021"
publish = false

[dependencies]
arrow-array = "=57.3.2"
arrow-ipc = "=57.3.2"
arrow-schema = "=57.3.2"
base64 = "=0.22.1"
bytes = "1"
futures = "0.3"
glob = "0.3"
log = "0.4"
object_store = { version = "0.12", default-features = false }
regex = "1"
reqwest-middleware = { version = "0.4", features = ["rustls-tls"] }
serde = { version = "1", features = ["derive"] }
serde_json = "1"
thiserror = "2"
tokio = { version = "1", features = ["rt"] }

[dev-dependencies]
arrow-buffer = "=57.3.2"
