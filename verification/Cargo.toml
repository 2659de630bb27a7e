[package]
name = "docker_maid"
version = "0.1.0"
edition = "2021"
publish = false

[dependencies]
bollard = "*"
chrono = "*"
colog = "*"
cron = "*"
futures = "*"
log = "*"
serde_json = "*"
tokio = { version = "*", features = ["macros", "rt", "time"] }
