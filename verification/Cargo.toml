[package]
name = "linux_boot_params"
version = "0.1.0"
edition = "2021"
publish = false

[dependencies]
zerocopy = { version = "0.7", features = ["derive"] }
