[package]
name = "oxa"
version = "0.1.0"
edition = "2021"
publish = false

[dependencies]
anyhow = "=1.0.104"
chrono = "=0.4.45"
crossterm = "=0.29.0"
keyring = { version = "=3.6.3", default-features = false }
oauth2 = { version = "=5.0.0", default-features = false }
octocrab = "=0.44.1"
ratatui = "=0.30.2"
reqwest = { version = "=0.12.28", default-features = false, features = ["json", "rustls-tls"] }
serde = { version = "=1.0.229", features = ["derive"] }
serde_json = "=1.0.151"
thiserror = "=2.0.21"
tiny_http = "=0.12.0"
tokio = { version = "=1.53.2", features = ["rt-multi-thread", "macros", "time", "sync"] }
url = "=2.5.8"
webbrowser = "=1.2.4"
