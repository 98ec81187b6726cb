[package]
name = "ryu_floating_decimal"
version = "0.1.0"
edition = "2021"
publish = false

[dev-dependencies]
ryu = "1"
