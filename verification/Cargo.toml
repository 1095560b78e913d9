[package]
name = "signal_future"
version = "0.1.0"
edition = "2021"
publish = false

[dependencies]
parking_lot = "*"

[dev-dependencies]
futures = { version = "*", features = ["executor"] }
