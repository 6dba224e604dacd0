[package]
name = "chip8"
version = "0.1.0"
edition = "2021"
publish = false

[dependencies]
hex = "0.4"
inquire = "0.7"
minifb = "0.28"
rand = "0.9"
thiserror = "2"
walkdir = "2"
