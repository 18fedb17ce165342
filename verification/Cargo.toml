[package]
name = "sharad_ratatui"
version = "0.1.0"
edition = "2021"
publish = false

[dependencies]
rand = "0.9"
serde = { version = "1", features = ["derive"] }
serde_json = "1"
semver = "1"
textwrap = "0.16"
tokio = { version = "1", features = ["rt-multi-thread", "macros", "sync", "time"] }
async-openai = "0.28"
ratatui = "0.29"
crossterm = "0.28"
tui-textarea = "0.7"
log = "0.4"
