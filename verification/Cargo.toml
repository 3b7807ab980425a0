[package]
name = "lazy_panic"
version = "1.0.0"
edition = "2021"
publish = false

[dependencies]
backtrace = "0.3"
