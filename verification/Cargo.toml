[package]
name = "srun"
version = "0.1.0"
edition = "2021"
publish = false

[dependencies]
anyhow = "=1.0.104"
bollard = "=0.13.0"
cached-path = "=0.8.1"
chrono = "=0.4.45"
clap = "=3.2.25"
data-url = "=0.1.1"
env_logger = "=0.9.3"
flate2 = "=1.1.10"
futures = "=0.3.34"
hyper = "=0.14.32"
log = "=0.4.34"
serde = { version = "=1.0.229", features = ["derive"] }
serde_yaml = "=0.8.26"
tar = "=0.4.46"
tempfile = "=3.27.0"
thiserror = "=1.0.69"
tokio = { version = "=1.54.1", features = ["full"] }
