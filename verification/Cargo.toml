[package]
name = "trx_processor"
version = "0.1.0"
edition = "2021"
publish = false

[dependencies]
chrono = "0.4"
csv = "1"
dashmap = "*"
parking_lot = "0.12"
rust_decimal = "1"
serde = { version = "1", features = ["derive"] }
