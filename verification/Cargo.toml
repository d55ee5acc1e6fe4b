[package]
name = "qcs"
version = "0.1.0"
edition = "2021"
publish = false

[dependencies]
quil-rs = { version = "*", default-features = false }
qcs-api-client-grpc = { version = "*", default-features = false }
tokio = { version = "1", default-features = false, features = ["time"] }
serde = { version = "1", features = ["derive"] }
serde_json = "1"
thiserror = "*"
