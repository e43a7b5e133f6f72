[package]
name = "emscripten"
version = "0.1.0"
edition = "2021"
publish = false

[dependencies]
bytes = "1"
futures = "0.3"
futures-channel = "0.3"
thiserror = "1"
