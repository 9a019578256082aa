[package]
name = "keyboard_layout"
version = "0.1.0"
edition = "2021"
publish = false

[dependencies]
core-foundation = "*"
nativeshell_core = "*"
