[package]
name = "jellytui"
version = "0.1.0"
edition = "2021"
publish = false

[dependencies]
anyhow = "1"
crossterm = "0.28"
directories = "*"
dirs = "*"
futures-util = "0.3"
image = "0.25"
mpv-ipc = "*"
ratatui = "0.29"
ratatui-image = "8"
reqwest = { version = "0.12", features = ["json", "stream"] }
serde = { version = "1", features = ["derive"] }
serde_json = "1"
tokio = { version = "1", features = ["full"] }
uuid = { version = "1", features = ["v4"] }
