[package]
name = "verbosio"
version = "0.1.0"
edition = "2021"
publish = false

[dependencies]
chrono = { version = "=0.4.45", default-features = false, features = ["clock"] }
colored = "=3.1.1"
crossterm = { version = "=0.29.0", default-features = false, features = ["windows"] }
once_cell = "=1.21.4"
