[package]
name = "rust_in_peace"
version = "0.1.0"
edition = "2021"
publish = false

[dependencies]
chrono = "0.4"
glium = "0.32"
log = "0.4"
simplelog = "0.12"
time = "0.3"
build-time = "0.1"
