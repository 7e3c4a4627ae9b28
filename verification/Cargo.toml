[package]
name = "hexscope"
version = "0.1.0"
edition = "2021"
publish = false

[dependencies]
pathdiff = "0.2"
dunce = "1"
crossterm = "0.27"
ratatui = "0.26"
mlua = { version = "0.9", features = ["lua54", "vendored"] }
