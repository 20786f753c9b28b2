[package]
name = "bengal"
version = "0.1.0"
edition = "2021"
publish = false

[dependencies]
concurrent-queue = "2"
event-listener = "2.5"
futures-core = "0.3"
