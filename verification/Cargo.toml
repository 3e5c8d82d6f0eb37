[package]
name = "vk_driver"
version = "0.1.0"
edition = "2021"
publish = false

[dependencies]
ash = "=0.38.0"
gpu-allocator = "=0.28.0"
log = "=0.4.35"
parking_lot = "=0.12.5"
raw-window-handle = "=0.6.2"
ordered-float = "=5.5.1"
smallvec = "=1.16.4"

[dev-dependencies]
rand = { version = "=0.9.5", features = ["small_rng"] }
vk-sync-fork = "=0.5.2"
