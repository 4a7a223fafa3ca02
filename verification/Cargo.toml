[package]
name = "totp_cli"
version = "0.1.0"
edition = "2021"
publish = false

[dependencies]
byteorder = "1"
crossterm = "0.25"
ring = "0.17"
tui = "0.19"
