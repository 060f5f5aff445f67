[package]
name = "embassy-nina"
version = "0.1.1"
edition = "2021"
publish = false

[dependencies]
embedded-hal = "1.0"
embedded-hal-async = "1.0"
embedded-io = "0.6"
embedded-io-async = "0.6"
embedded-nal-async = "0.8"
embassy-time = "0.4"
embassy-sync = "0.6"
embassy-futures = "0.1"
