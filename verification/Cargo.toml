[package]
name = "iprolaunch"
version = "1.20.1"
edition = "2021"
publish = false

[dependencies]
anyhow = "*"
base64 = "*"
clap = { version = "*", features = ["derive"] }
crossterm = "*"
csv = "*"
directories = "*"
gilrs = "*"
ratatui = "*"
serde = { version = "*", features = ["derive"] }
serde_json = "*"
signal-hook = "*"
time = { version = "*", features = ["local-offset", "formatting"] }
toml = "*"
ureq = { version = "*", features = ["json"] }
