[package]
name = "wasmos"
version = "0.1.0"
edition = "2021"
publish = false

[dependencies]
x86_64 = { version = "=0.14.13", default-features = false, features = ["instructions"] }
uart_16550 = "=0.3.2"
spin = { version = "=0.9.9", features = ["lazy", "mutex", "spin_mutex"] }
talc = { version = "=4.4.3", default-features = false, features = ["lock_api"] }
uefi = { version = "=0.27.0", features = ["alloc"] }
uefi-services = { version = "=0.24.0", default-features = false }
wasmi = "=0.40.0"
anyhow = "=1.0.104"
tempdir = "=0.3.7"
ovmf-prebuilt = "=0.2.9"
