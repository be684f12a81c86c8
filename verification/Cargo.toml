[package]
name = "light-stripe"
version = "0.1.0"
edition = "2021"
publish = false

[dependencies]
anyhow = "*"
bollard = "*"
crossterm = "*"
directories = "*"
futures-util = "*"
netstat2 = "*"
ratatui = "*"
serde = { version = "*", features = ["derive"] }
serde_json = "*"
sysinfo = "*"
tokio = { version = "*", features = ["rt-multi-thread"] }
toml = "*"
