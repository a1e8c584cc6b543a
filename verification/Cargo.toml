[package]
name = "goohttp"
version = "0.1.0"
edition = "2021"
publish = false

[dependencies]
http = "0.2"
tokio = { version = "1", features = ["rt", "time"] }
axum = "0.6"
hyper = "0.14"
goolog = "*"
