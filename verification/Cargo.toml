[package]
name = "tabitha"
version = "0.1.0"
edition = "2021"
publish = false

[dependencies]
crossterm = "0.28"
ratatui = "0.29"
tokio = { version = "1", features = ["sync"] }
tracing = "0.1"
