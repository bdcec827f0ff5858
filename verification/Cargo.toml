[package]
name = "screen_recorder"
version = "0.1.0"
edition = "2021"
publish = false

[dependencies]
chrono = "*"
crossterm = "*"
windows-capture = "*"
