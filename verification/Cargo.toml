[package]
name = "hotkey_chime"
version = "0.1.0"
edition = "2021"
publish = false

[dependencies]
inputbot = "*"
once_cell = "*"
rodio = "*"
