[package]
name = "mpsc_writer"
version = "0.1.0"
edition = "2021"
publish = false

[dependencies]
async-channel = "*"
futures-lite = { version = "*", default-features = false, features = ["std"] }
