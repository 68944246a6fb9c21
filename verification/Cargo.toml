[package]
name = "sap_automation"
version = "0.6.0"
edition = "2021"
publish = false

[dependencies]
anyhow = "1"
chrono = "0.4"
clap = { version = "4", features = ["derive"] }
crossterm = "*"
dialoguer = "*"
ratatui = "*"
regex = "1"
sap-scripting = "*"
serde = { version = "1", features = ["derive"] }
serde_json = "1"
toml = "*"
windows = { version = "*", features = ["Win32_Foundation"] }
windows-sys = { version = "*", features = ["Win32_System_Power"] }
