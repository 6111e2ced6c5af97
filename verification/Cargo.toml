[package]
name = "ubenchmon"
version = "0.1.0"
edition = "2021"
publish = false

[dependencies]
chrono = "0.4"
color-eyre = "0.6"
crossterm = "0.28"
ratatui = "0.29"
libc = "0.2"
