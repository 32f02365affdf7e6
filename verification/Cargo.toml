[package]
name = "termcalc"
version = "0.1.0"
edition = "2021"
publish = false

[dependencies]
num_parser = "*"
crossterm = "0.27"
ratatui = "0.26"
