[package]
name = "copper"
version = "0.1.0"
edition = "2021"
publish = false

[dependencies]
euclid = "=0.17.3"
gfx = "=0.17.1"
gfx_core = "=0.8.3"
lyon = "=0.10.2"
