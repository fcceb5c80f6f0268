[package]
name = "jolt"
version = "0.1.0"
edition = "2021"
publish = false

[dependencies]
bytesize = "2"
humantime = "2"
starship-battery = "0.10"
ratatui = "0.29"
crossterm = "0.28"
clap = { version = "4", features = ["derive"] }
serde = { version = "1", features = ["derive"] }
serde_json = "1"
toml = "0.8"
chrono = "0.4"
sysinfo = "0.30"
rusqlite = { version = "0.31", features = ["bundled"] }
dirs = "5"
daemonize = "0.5"
ureq = "2"
plist = "1"
thiserror = "1"
color-eyre = "0.6"
