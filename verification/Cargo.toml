[package]
name = "crescent"
version = "0.1.0"
edition = "2021"
publish = false

[dependencies]
anyhow = "=1.0.104"
clap = { version = "=4.6.7", features = ["derive"] }
clap_complete = "=4.6.11"
crossbeam = "=0.8.5"
crossterm = "=0.27.0"
libc = "=0.2.191"
log = "=0.4.34"
notify = "=6.1.1"
ratatui = "=0.27.0"
serde = { version = "=1.0.229", features = ["derive"] }
serde_json = "=1.0.154"
subprocess = "=0.2.15"
sysinfo = "=0.30.13"
tui-input = "=0.8.0"
tui-logger = { version = "=0.11.2", features = ["crossterm"] }
