[package]
name = "proxswap"
version = "0.1.0"
edition = "2021"
publish = false

[dependencies]
anyhow = "1"
crossterm = "0.28"
once_cell = "1"
ratatui = "0.29"
serde = { version = "1", features = ["derive"] }
serde_json = "1"
tokio = { version = "1", features = ["macros", "rt-multi-thread"] }
