[package]
name = "virtio_transport"
version = "0.1.0"
edition = "2021"
publish = false

[dependencies]
mio = { version = "1", features = ["os-poll", "os-ext"] }
parking_lot = "0.12"
log = "0.4"
