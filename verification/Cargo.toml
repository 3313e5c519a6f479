[package]
name = "enhancer"
version = "0.1.0"
edition = "2021"
publish = false

[dependencies]
image = "0.24"
lab = "0.11"
rand = "0.8"
walkdir = "2"
tensorboard-rs = "*"
