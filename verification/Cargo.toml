[package]
name = "zwift_capture"
version = "0.1.0"
edition = "2021"
publish = false

[dependencies]
etherparse = "*"
pcap = "*"
serde = { version = "*", features = ["derive"] }
