[package]
name = "screen"
version = "0.1.0"
edition = "2021"
publish = false

[dependencies]
rust-ini = "0.21.3"
chrono = { version = "0.4.45", default-features = false, features = ["clock"] }
dirs-next = "2.0.0"
screenshots = { version = "=0.5.4", default-features = false }
