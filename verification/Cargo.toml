[package]
name = "cli_pulse"
version = "0.1.0"
edition = "2021"
publish = false

[dependencies]
chrono = "0.4"
dirs = "5"
log = "0.4"
once_cell = "1"
regex = "1"
sentry = { version = "0.34", default-features = false }
serde = { version = "1", features = ["derive"] }
serde_json = "1"
starship-battery = "0.10"
tokio = { version = "1", features = ["rt", "sync", "time", "macros"] }
whoami = "1"
