[package]
name = "shared_rwlock"
version = "0.1.0"
edition = "2021"
publish = false

[dependencies]
parking_lot = { version = "*", features = ["arc_lock"] }
lock_api = { version = "*", features = ["arc_lock"] }
