[package]
name = "snake_engine"
version = "0.1.0"
edition = "2021"
publish = false

[dependencies]
rand = { version = "0.9", default-features = false, features = ["small_rng"] }
embedded-graphics = "0.8"
embedded-graphics-core = "0.4"
embedded-graphics-simulator = "*"
embedded-cli = "0.2"
embedded-io = "0.6"
libc = "0.2"
