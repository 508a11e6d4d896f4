[package]
name = "rchip16"
version = "0.1.0"
edition = "2021"
publish = false

[dependencies]
rand = "0.5"
cpal = "0.8"
minifb = "0.13"
