[package]
name = "brick_convert"
version = "0.1.0"
edition = "2021"
publish = false

[dependencies]
bl_save = "*"
brs = "*"
