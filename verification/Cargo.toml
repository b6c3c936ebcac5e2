[package]
name = "yup-oauth2"
version = "0.1.0"
edition = "2021"
publish = false

[dependencies]
chrono = { version = "0.4", default-features = false, features = ["std", "clock"] }
futures = "0.3"
hyper = { version = "0.14", features = ["client", "http1", "tcp"] }
serde = { version = "1", features = ["derive"] }
serde_json = "1"
tokio = { version = "1", features = ["fs", "time"] }
url = "2"
