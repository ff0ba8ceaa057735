[package]
name = "plz"
version = "0.2.0"
edition = "2021"
publish = false

[dependencies]
anyhow = "1"
arboard = "3"
clap = { version = "4", features = ["derive"] }
crossterm = "0.28"
directories = "6"
ratatui = "0.29"
reqwest = { version = "0.12", default-features = false, features = ["blocking", "json", "rustls-tls"] }
rust-i18n = "3"
serde = { version = "1", features = ["derive"] }
serde_json = "1"
sys-locale = "0.3"
sysinfo = "0.33"
toml = "0.8"
