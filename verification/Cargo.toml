[package]
name = "radio-station"
version = "0.1.0"
edition = "2021"
publish = false

[dependencies]
anyhow = "=1.0.104"
clap = "=2.34.0"
env_logger = "=0.7.1"
futures = "=0.3.34"
log = "=0.4.34"
ogg = "=0.7.1"
tokio = { version = "=0.2.25", features = ["macros", "rt-threaded", "time"] }
