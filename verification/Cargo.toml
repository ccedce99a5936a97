[package]
name = "arm_ffa"
version = "0.1.0"
edition = "2021"
publish = false

[dependencies]
uuid = { version = "1", default-features = false }
spin = "0.9"
thiserror = "2"
