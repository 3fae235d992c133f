[package]
name = "gmsv_mongo"
version = "0.1.0"
edition = "2021"
publish = false

[dependencies]
mongodb = "3"
tokio = { version = "1", features = ["rt-multi-thread", "sync", "time"] }
futures = "0.3"
once_cell = "1"
hex = "0.4"
log = "0.4"
env_logger = "0.11"
serde = { version = "1", features = ["derive"] }
thiserror = "1"
ureq = { version = "2", features = ["json"] }
rglua = "*"
