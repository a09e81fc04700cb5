[package]
name = "micro_ci"
version = "0.1.0"
edition = "2021"
publish = false

[dependencies]
uuid = { version = "=1.27.0", features = ["v4"] }
serde = { version = "=1.0.229", features = ["derive"] }
toml = "=1.1.6"
dirs = "=7.0.0"
log = "=0.4.34"
env_logger = "=0.11.11"
hubcaps = "=0.5.0"
hyper = "=0.12.36"
hyper-tls = "=0.3.2"
tokio = "=0.1.22"
