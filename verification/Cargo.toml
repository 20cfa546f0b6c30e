[package]
name = "roboken_rs"
version = "0.1.0"
edition = "2021"
publish = false

[dependencies]
bit_field = "=0.10.3"
embedded-can = "=0.4.1"
heapless = "=0.8.0"
micromath = { version = "=2.1.0", features = ["vector"] }
