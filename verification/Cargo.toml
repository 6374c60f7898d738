[package]
name = "docker_tui"
version = "0.1.0"
edition = "2021"
publish = false

[dependencies]
async-trait = "*"
bollard = "*"
chrono = "*"
color-eyre = "*"
crossterm = { version = "*", features = ["event-stream"] }
futures = "*"
ratatui = "*"
tokio = { version = "*", features = ["macros", "rt-multi-thread", "sync", "time"] }
tokio-util = "*"
