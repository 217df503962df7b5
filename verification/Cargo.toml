[package]
name = "codex-tui"
version = "0.1.0"
edition = "2021"
publish = false

[dependencies]
crossterm = "0.28"
ratatui = { version = "0.29", features = ["unstable-widget-ref"] }
serde_json = "1"
tokio = { version = "1", features = ["sync", "rt"] }
tracing = "0.1"
