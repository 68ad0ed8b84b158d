[package]
name = "ctrader_openapi"
version = "0.1.0"
edition = "2021"
publish = false

[dependencies]
prost = "0.12"
uuid = { version = "1", features = ["v4"] }
url = "2"
governor = "0.6"
nonzero_ext = "0.3"
tokio = { version = "1", features = ["full"] }
tokio-util = { version = "0.7", features = ["codec"] }
tokio-rustls = "0.24"
rustls = "0.21"
webpki-roots = "0.25"
futures = "0.3"
tracing = "0.1"
thiserror = "1"
chrono = "0.4"
