[package]
name = "vtok_p11"
version = "0.1.0"
edition = "2021"
publish = false

[dependencies]
aws-lc-rs = "=1.19.0"
sha2 = "=0.10.9"
rand = "=0.8.8"
serde = { version = "=1.0.229", features = ["derive"] }
serde_json = "=1.0.154"
tokio = { version = "=1.54.1", features = ["rt", "rt-multi-thread", "macros", "time", "io-util"] }
clap = "=4.6.7"
env_logger = "=0.11.11"
log = "=0.4.35"
thiserror = "=1.0.69"
lazy_static = "=1.5.1"
