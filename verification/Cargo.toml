[package]
name = "bilibili-tui"
version = "0.1.0"
edition = "2021"
publish = false

[dependencies]
ratatui = "0.29"
crossterm = "0.28"
tokio = { version = "1", features = ["rt-multi-thread", "macros", "process", "time", "sync", "fs"] }
reqwest = { version = "0.12", default-features = false, features = ["json", "cookies", "rustls-tls"] }
serde = { version = "1", features = ["derive"] }
serde_json = "1"
anyhow = "1"
chrono = { version = "0.4", default-features = false, features = ["clock"] }
dirs = "6"
image = { version = "0.25", default-features = false, features = ["png", "jpeg"] }
ratatui-image = { version = "8", default-features = false }
qrcode = { version = "0.14", default-features = false }
tui-qrcode = "0.1"
