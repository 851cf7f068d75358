[package]
name = "clickr"
version = "0.1.0"
edition = "2021"
publish = false

[dependencies]
bytes = "1"
url = "2"
hyper = { version = "0.14", features = ["client", "http1", "stream", "tcp"] }
tokio = { version = "1", features = ["rt", "time"] }
futures = "0.3"
ureq = { version = "=2.6.2", features = ["tls"] }
rustls = "0.20"
rustls-native-certs = "0.6"
webpki-roots = "0.22"
serde = { version = "1", features = ["derive"] }
thiserror = "1"
enum_dispatch = "0.3"
