[package]
name = "aegis"
version = "0.1.0"
edition = "2021"
publish = false

[dependencies]
chrono = "*"
which = "*"
sysinfo = "*"
crossterm = "*"
ratatui = "*"
