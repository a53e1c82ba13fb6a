[package]
name = "reflex"
version = "0.1.0"
edition = "2021"
publish = false

[dependencies]
rand = "=0.8.8"
nannou = "=0.19.0"
