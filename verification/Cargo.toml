[package]
name = "wintrack"
version = "0.1.0"
edition = "2021"
publish = false

[dependencies]
chrono = "*"
serde_json = "*"
urlencoding = "*"
serde = { version = "*", features = ["derive"] }
directories = "*"
log = "*"
env_logger = "*"
reqwest = { version = "*", default-features = false, features = ["json", "rustls-tls"] }
tokio = { version = "*", features = ["rt-multi-thread", "time", "sync"] }
tao = "*"
tray-icon = "*"
wry = "*"
