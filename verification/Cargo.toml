[package]
name = "kernel8"
version = "0.1.0"
edition = "2021"
publish = false

[dependencies]
numtoa = "0.1"
spin = "0.5"
