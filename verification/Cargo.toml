[package]
name = "exo"
version = "0.1.0"
edition = "2021"
publish = false

[dependencies]
anyhow = "1"
crossterm = "0.28"
datafusion = { version = "43", default-features = false }
indoc = "2"
ratatui = "0.29"
tokio = { version = "1", features = ["full"] }
tui-textarea = "0.7"
uuid = { version = "1", features = ["v4"] }
