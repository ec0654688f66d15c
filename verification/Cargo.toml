[package]
name = "client"
version = "0.1.0"
edition = "2021"
publish = false

[dependencies]
anyhow = "1"
base64 = "0.13"
futures-util = { version = "0.3", features = ["sink"] }
openmls = "0.5"
pretty_env_logger = "0.5"
reqwest = { version = "0.11", default-features = false, features = ["blocking"] }
tls_codec = "0.3"
tokio = { version = "1", features = ["full"] }
tokio-tungstenite = "0.21"
url = "2"
