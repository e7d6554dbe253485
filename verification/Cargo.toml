[package]
name = "radiotap"
version = "2.0.0"
edition = "2021"
publish = false

[dependencies]
frombytes = "*"
thiserror = "1"

[dev-dependencies]
hex = "0.4"
