[package]
name = "client_stages"
version = "0.1.0"
edition = "2021"
publish = false

[dependencies]
serde = "*"
serde_json = "*"
http = "*"
tower = "*"
http-body = "*"
http-body-util = "*"
bytes = "*"
futures = "*"
tokio = { version = "*", features = ["fs"] }
