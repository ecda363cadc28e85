[package]
name = "unix_http_client"
version = "0.1.0"
edition = "2021"
publish = false

[dependencies]
axum-core = "*"
http-body-util = "*"
hyper = { version = "*", features = ["client", "http1"] }
hyper-util = { version = "*", features = ["tokio"] }
tokio = { version = "*", features = ["net", "rt"] }
