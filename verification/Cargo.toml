[package]
name = "fortelion"
version = "0.1.0"
edition = "2021"
publish = false

[dependencies]
serialport = { version = "4", default-features = false }
strum = { version = "0.26", features = ["derive"] }
thiserror = "1"
