[package]
name = "maybe-unwind"
version = "0.3.1"
edition = "2021"
publish = false

[dependencies]
futures-core = "0.3"
