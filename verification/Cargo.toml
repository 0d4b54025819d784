[package]
name = "slimetora"
version = "0.1.0"
edition = "2021"
publish = false

[dependencies]
base64 = "=0.22.1"
byteorder = "=1.5.0"
dashmap = "=6.2.1"
hex = "=0.4.3"
serde_json = "=1.0.154"
uuid = "=1.29.0"
serde = { version = "=1.0.229", features = ["derive"] }
nalgebra = "=0.35.0"
log = "=0.4.34"
once_cell = "=1.21.4"
tokio = { version = "=1.54.1", features = ["rt-multi-thread", "sync", "time", "macros"] }
tokio-util = "=0.7.20"
futures = "=0.3.34"
serialport = { version = "=4.10.1", default-features = false }
chrono = "0.4"
dirs = "6"
open = "5"
