[package]
name = "cfc"
version = "0.1.0"
edition = "2021"
publish = false

[dependencies]
anyhow = "=1.0.104"
bollard = "=0.18.1"
chrono = "=0.4.45"
clap = { version = "=4.6.7", features = ["derive"] }
croner = "=2.2.0"
futures-util = "=0.3.34"
ini_core = "=0.2.0"
json = "=0.12.4"
saphyr-parser = "=0.0.12"
shell-words = "=1.1.1"
tokio = { version = "=1.54.1", features = ["rt", "macros", "process", "fs", "signal", "time"] }
tracing = "=0.1.44"
tracing-subscriber = "=0.3.23"

[dev-dependencies]
regex = "=1.13.1"
