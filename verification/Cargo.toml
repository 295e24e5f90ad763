[package]
name = "performance_monitor"
version = "0.1.0"
edition = "2021"
publish = false

[dependencies]
anyhow = "*"
bollard = "*"
chrono = "*"
clap = "*"
env_logger = "*"
futures-util = "*"
lettre = "*"
log = "*"
serde = { version = "*", features = ["derive"] }
serde_json = "*"
sysinfo = "*"
tokio = { version = "*", features = ["macros", "rt-multi-thread", "time"] }
