[package]
name = "battery_monitor"
version = "0.1.0"
edition = "2021"
publish = false

[dependencies]
clap = { version = "4", features = ["derive"] }
crossterm = { version = "*", features = ["event-stream"] }
embedded-can = "*"
eyre = "*"
futures = "*"
futures-util = "*"
ratatui = "*"
tokio = { version = "1", features = ["macros", "rt-multi-thread", "time", "sync"] }
tokio-socketcan = "*"
