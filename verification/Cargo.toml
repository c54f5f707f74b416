[package]
name = "dsx"
version = "0.1.0"
edition = "2021"
publish = false

[dependencies]
hidapi = "2"
vigem-client = "0.1"
