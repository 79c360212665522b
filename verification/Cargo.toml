[package]
name = "savant_core"
version = "0.1.0"
edition = "2021"
publish = false

[dependencies]
zmq = { version = "=0.9.2", features = ["vendored"] }
lru = "=0.12.5"
hashbrown = "=0.14.5"
