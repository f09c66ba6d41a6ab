[package]
name = "guitar_tuner"
version = "0.1.0"
edition = "2021"
publish = false

[dependencies]
rustfft = "6"
cpal = "0.15"
crossbeam-channel = "0.5"
crossterm = "0.27"
ratatui = "0.26"
