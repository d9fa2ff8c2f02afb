[package]
name = "serial_test"
version = "0.1.0"
edition = "2021"
publish = false

[dependencies]
dashmap = "=6.2.1"
parking_lot = "=0.12.5"

[dev-dependencies]
crossbeam-utils = "*"
