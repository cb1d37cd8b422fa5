[package]
name = "versalogrs"
version = "0.1.0"
edition = "2021"
publish = false

[dependencies]
backtrace = "0.3"
chrono = "0.4"
notify-rust = "4"
