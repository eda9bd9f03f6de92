[package]
name = "pneuma"
version = "0.4.2"
edition = "2021"
publish = false

[dependencies]
clap = { version = "4", features = ["derive"] }
crossterm = "0.28"
libc = "0.2"
ratatui = "0.29"
rusqlite = "0.32"
serde = { version = "1", features = ["derive"] }
thiserror = "2"
toml = "0.8"
