[package]
name = "registrar"
version = "0.1.0"
edition = "2021"
publish = false

[dependencies]
chrono = "0.4"
chrono-tz = "0.9"
clap = { version = "4", features = ["derive"] }
env_logger = "0.11"
log = "0.4"
scale-value = "0.16"
serde = { version = "1", features = ["derive"] }
sp-core = "31"
tokio = { version = "1", features = ["macros", "rt-multi-thread", "sync", "time"] }
