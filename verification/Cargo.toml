[package]
name = "awedio"
version = "0.1.0"
edition = "2021"
publish = false

[dependencies]
symphonia = "0.5"
