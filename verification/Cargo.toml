[package]
name = "fun_emu"
version = "0.1.0"
edition = "2021"

[dependencies]
crossterm = "*"
