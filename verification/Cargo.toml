[package]
name = "feather"
version = "0.1.0"
edition = "2021"
publish = false

[dependencies]
bitvec = "=1.1.1"
byteorder = "=1.5.0"
flate2 = "=1.1.10"
hematite-nbt = "=0.5.2"
serde = { version = "=1.0.229", features = ["derive"] }
serde_json = { version = "=1.0.154", features = ["preserve_order"] }
uuid = "1"
