[package]
name = "resumable"
version = "0.1.0"
edition = "2021"
publish = false

[dependencies]
futures = "0.3"
ghost-cell = "0.2"
