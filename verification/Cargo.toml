[package]
name = "qb"
version = "0.1.0"
edition = "2021"
publish = false

[dependencies]
anyhow = "1"
clap = { version = "4", features = ["derive"] }
confy = "0.5"
crossterm = { version = "0.27", features = ["serde"] }
ratatui = { version = "0.23", features = ["serde"] }
rusqlite = "0.29"
serde = { version = "1", features = ["derive"] }
thiserror = "1"
tui-input = "0.8"
