[package]
name = "req_response_exporter"
version = "0.1.0"
edition = "2021"
publish = false

[dependencies]
opentelemetry-proto = { version = "=0.33.1", default-features = false, features = ["gen-tonic-messages", "logs", "trace"] }
prost = "=0.14.4"
rustls = { version = "=0.23.46", default-features = false, features = ["std", "ring", "aws_lc_rs"] }
rustls-openssl = "=0.4.2"
rustls-symcrypt = "=0.2.3"
serde = { version = "1", features = ["derive"] }
serde_json = "1"
tokio = { version = "1", features = ["io-util", "macros", "net", "rt", "sync", "time"] }
