[package]
name = "transfer_bridge"
version = "0.1.0"
edition = "2021"
publish = false

[dependencies]
memchr = "=2.8.3"
arc-swap = "=1.9.3"
curl = { version = "=0.4.51", features = ["static-curl"] }
block2 = "=0.6.2"
objc2 = "=0.6.5"
objc2-foundation = "=0.3.2"
nyquest-interface = "=0.5.0"
