[package]
name = "ttt_core"
version = "0.1.0"
edition = "2021"

[dependencies]
crossterm = "*"
derive_setters = "*"
ratatui = "*"
