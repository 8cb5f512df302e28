[package]
name = "wasmair"
version = "0.1.0"
edition = "2021"
publish = false

[dependencies]
adsb = "=0.4.0"
eventsourcing = "=0.1.5"
log = "=0.4.34"
rmp = "=0.8.9"
serde = { version = "=1.0.229", features = ["derive"] }
serde_json = "=1.0.154"
wascc-actor = "=0.7.4"
wascc-codec = "=0.8.1"
