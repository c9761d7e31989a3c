[package]
name = "unix_stream"
version = "0.1.0"
edition = "2021"
publish = false

[dependencies]
async-io = "2"
futures = "0.3"
