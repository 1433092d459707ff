[package]
name = "nacos_perf_utils"
version = "0.1.0"
edition = "2021"
publish = false

[dependencies]
clap = "=4.6.7"
ctrlc = "=3.5.2"
env_logger = "=0.11.11"
log = "=0.4.34"
reqwest = { version = "=0.13.5", default-features = false, features = ["json", "form", "query"] }
serde = { version = "=1.0.229", features = ["derive"] }
tokio = { version = "=1.53.2", features = ["rt-multi-thread", "macros", "time"] }
tokio-cron-scheduler = "=0.15.1"
