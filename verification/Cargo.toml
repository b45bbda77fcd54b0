[package]
name = "app_tui"
version = "0.1.0"
edition = "2021"
publish = false

[dependencies]
chrono = "0.4"
crossterm = "0.28"
dashmap = "6"
open = "5"
ratatui = { version = "0.29", features = ["unstable-widget-ref"] }
tokio = { version = "1", features = ["rt-multi-thread", "time"] }
