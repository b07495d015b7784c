[package]
name = "camt053"
version = "0.1.0"
edition = "2021"
publish = false

[dependencies]
chrono = "0.4"
quick-xml = "0.31"
