[package]
name = "max11300"
version = "0.1.0"
edition = "2021"
publish = false

[dependencies]
heapless = "0.8"
embedded-hal = "1.0"
embedded-hal-async = "1.0"
embassy-sync = "0.6"
seq-macro = "0.3"
