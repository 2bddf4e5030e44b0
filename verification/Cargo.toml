[package]
name = "codewhale_ratatui"
version = "0.1.0"
edition = "2021"
publish = false

[dependencies]
ratatui = "*"
crossterm = "*"
unicode-segmentation = "*"
unicode-width = "*"
