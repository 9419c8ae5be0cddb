[package]
name = "skyproxy"
version = "0.1.0"
edition = "2021"
publish = false

[dependencies]
uuid = { version = "=1.27.0", features = ["v4"] }
azure_core = "=0.21.0"
azure_storage = "=0.21.0"
azure_storage_blobs = "=0.21.0"
futures = "=0.3.34"
async-trait = "=0.1.92"
tokio = { version = "=1.53.2", features = ["rt", "macros"] }
time = "=0.3.55"
