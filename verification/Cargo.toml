[package]
name = "image_pull"
version = "0.1.0"
edition = "2021"
publish = false

[dependencies]
anyhow = "1"
futures-util = "0.3"
oci-client = { version = "0.14", default-features = false, features = ["rustls-tls"] }
tokio = { version = "1", features = ["rt", "sync"] }
tokio-util = { version = "0.7", features = ["io"] }
