[package]
name = "vehicle_bridge"
version = "0.1.0"
edition = "2021"
publish = false

[dependencies]
cdr = "*"
serde = { version = "*", features = ["derive"] }
atomic_float = "*"
log = "*"
