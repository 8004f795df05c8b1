[package]
name = "boot_shim"
version = "0.1.0"
edition = "2021"
publish = false

[dependencies]
log = "0.4"
uefi = { version = "*", features = ["alloc", "logger"] }
