[package]
name = "trebuchet"
version = "0.1.0"
edition = "2021"
publish = false

[dependencies]
crc = "3"
clap = { version = "*", features = ["derive"] }
serialport = { version = "*", default-features = false }
log = "0.4"
env_logger = "*"
