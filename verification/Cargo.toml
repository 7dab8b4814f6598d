[package]
name = "initiative_tracker"
version = "0.1.0"
edition = "2021"
publish = false

[dependencies]
dice-parser = "=0.1.1"
uuid = "=1.29.0"
ratatui = "=0.30.2"
crossterm = "=0.29.0"
color-eyre = "=0.6.5"

[dev-dependencies]
rand = "=0.9.5"
