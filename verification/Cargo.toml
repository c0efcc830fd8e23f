[package]
name = "zar"
version = "0.1.0"
edition = "2021"
publish = false

[dependencies]
anyhow = "1"
crossterm = "0.28"
directories = "*"
ratatui = "0.29"
remotefs = "*"
remotefs-ftp = "*"
remotefs-ssh = "*"
serde = { version = "1", features = ["derive"] }
tempfile = "3"
toml = "*"
url = "2"
