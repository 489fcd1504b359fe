[package]
name = "litra_autotoggle"
version = "0.1.0"
edition = "2021"
publish = false

[dependencies]
litra = { version = "=3.3.0", default-features = false }
serde_yaml = "=0.9.34"
clap = { version = "=4.6.7", features = ["derive"] }
tokio = { version = "=1.53.2", features = ["macros", "rt-multi-thread", "time", "sync", "io-util", "process"] }
inotify = "=0.11.5"
log = "=0.4.34"
env_logger = "=0.11.11"
