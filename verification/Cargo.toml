[package]
name = "docker_client"
version = "0.1.0"
edition = "2021"
publish = false

[dependencies]
hyper = { version = "0.14", features = ["client", "http1", "http2", "tcp"] }
hyper-rustls = "0.22"
hyperlocal = "0.8"
rustls = "0.19"
rustls-native-certs = "0.5"
webpki-roots = "0.21"
ct-logs = "0.8"
tokio = { version = "1", features = ["net", "io-util", "rt"] }
futures = "0.3"
dirs = "3"
log = "0.4"
serde = { version = "1", features = ["derive"] }
serde_json = "1"
