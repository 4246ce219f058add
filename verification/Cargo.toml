[package]
name = "system_overview"
version = "0.1.0"
edition = "2021"
publish = false

[dependencies]
clap = { version = "4", features = ["derive"] }
color-eyre = "0.6"
crossterm = "0.28"
nvml-wrapper = "0.10"
ratatui = "0.29"
sysinfo = "0.33"
