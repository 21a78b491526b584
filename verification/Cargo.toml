[package]
name = "fighters"
version = "0.1.0"
edition = "2021"
publish = false

[dependencies]
interpolation = "=0.2.0"
skyline = "=0.6.0"
