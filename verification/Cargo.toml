[package]
name = "bounce_runtime"
version = "0.1.0"
edition = "2021"
publish = false

[dependencies]
embedded-graphics = "*"
riscv-rt = "*"
