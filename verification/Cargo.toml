[package]
name = "camrig"
version = "0.1.0"
edition = "2021"
publish = false

[dependencies]
pasts = "=0.14.3"
pix = "=1.0.1"
smelling_salts = "=0.12.1"
