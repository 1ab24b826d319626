[package]
name = "yo_esp"
version = "0.1.5"
edition = "2021"
publish = false

[dependencies]
embassy-sync = { version = "=0.8.0", features = ["std"] }
embassy-time = { version = "=0.5.1", features = ["std"] }
embassy-futures = "=0.1.2"
embassy-net = { version = "=0.9.1", features = ["tcp", "proto-ipv4", "medium-ethernet"] }
embassy-executor = "=0.10.0"
defmt = "=1.2.0"
libm = "=0.2.16"

[dev-dependencies]
critical-section = { version = "=1.2.0", features = ["std"] }
