[package]
name = "hyper-tls"
version = "0.1.0"
edition = "2021"
publish = false

[dependencies]
hyper = { version = "0.14", default-features = false, features = ["client", "http1", "tcp"] }
native-tls = "0.2"
rustls-native-certs = "0.6"
scoped-tls = "1"
tokio = { version = "1", default-features = false }
tokio-rustls = "0.23"
webpki-roots = "0.22"
