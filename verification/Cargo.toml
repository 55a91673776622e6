[package]
name = "lambda_cntr"
version = "0.1.0"
edition = "2021"
publish = false

[dependencies]
anyhow = "1"
clap = "2"
env_logger = "*"
futures = "0.3"
k8s-openapi = { version = "*", features = ["latest"] }
kube = { version = "*", features = ["ws"] }
log = "0.4"
serde_json = "1"
serde_yaml = "*"
tokio = { version = "1", features = ["macros", "rt-multi-thread", "io-std", "io-util"] }
