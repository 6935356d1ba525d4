[package]
name = "flasher_core"
version = "0.1.0"
edition = "2021"
publish = false

[dependencies]
espflash = { version = "3", default-features = false, features = ["cli"] }
serialport = { version = "4", default-features = false }
xmas-elf = "=0.9.1"
zip = { version = "=0.6.6", default-features = false, features = ["deflate"] }
