[package]
name = "hangman"
version = "0.1.0"
edition = "2021"
publish = false

[dependencies]
anyhow = "1"
colored = "2"
crossterm = "0.27"
rand = "0.8"
ratatui = "0.23"
