[package]
name = "todo_service"
version = "0.1.0"
edition = "2021"
publish = false

[dependencies]
uuid = { version = "1", features = ["v4"] }
hyper = "0.12"
futures = "0.1"
tera = "0.11"
serde = "1"
serde_derive = "1"
lazy_static = "1"
pretty_env_logger = "0.3"
