[package]
name = "refer"
version = "0.1.0"
edition = "2021"
publish = false

[dependencies]
anyhow = "1"
clap = { version = "4", features = ["derive"] }
crossterm = "0.27"
dirs = "5"
log = "0.4"
ratatui = { version = "0.26", features = ["macros"] }
simplelog = "0.12"
