[package]
name = "golem_net"
version = "0.1.0"
edition = "2021"
publish = false

[dependencies]
byteorder = "1"
bincode = "1"
serde = { version = "1", features = ["derive"] }
bytes = "1"
smallvec = "1"
fnv = "1"
log = "0.4"
crossbeam-channel = "0.5"
parking_lot = "0.12"
