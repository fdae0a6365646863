[package]
name = "kernel_build"
version = "0.1.0"
edition = "2021"

[dependencies]
cc = "*"
