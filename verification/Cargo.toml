[package]
name = "nozomi-quic-client"
version = "0.1.0"
edition = "2021"
publish = false

[dependencies]
bytes = "1"
h3 = "*"
h3-quinn = "*"
http = "1"
quinn = { version = "0.11", default-features = false, features = ["runtime-tokio", "rustls-aws-lc-rs"] }
rustls = "0.23"
rustls-native-certs = "0.8"
tokio = { version = "1", features = ["net", "rt"] }
