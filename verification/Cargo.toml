[package]
name = "crazyflie_commander"
version = "0.1.0"
edition = "2021"
publish = false

[dependencies]
serde = { version = "=1.0.229", features = ["derive"] }
serde_json = "=1.0.154"
tokio = { version = "=1.54.1", features = ["macros", "rt-multi-thread", "sync", "time", "fs"] }
tokio-stream = { version = "=0.1.19", features = ["fs", "sync"] }
futures = "=0.3.34"
crossterm = { version = "=0.29.0", features = ["event-stream"] }
ratatui = "=0.30.2"
chrono = "=0.4.45"
url = "=2.5.8"
reqwest = { version = "=0.12.28", default-features = false, features = ["json"] }
tracing = "=0.1.44"
tracing-subscriber = "=0.3.23"
tracing-appender = "=0.2.5"
color-eyre = "=0.6.5"
anyhow = "=1.0.104"
fastrand = "=2.5.0"
async-trait = "=0.1.92"
arrow = { version = "=57.3.2", default-features = false, features = ["ipc"] }
parquet = { version = "=57.3.2", default-features = false, features = ["arrow"] }
crazyflie-lib = "=0.8.2"
crazyflie-link = "=0.5.1"
config = { version = "0.15", default-features = false, features = ["toml"] }
