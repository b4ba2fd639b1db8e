[package]
name = "modbus_dissect"
version = "0.1.0"
edition = "2021"
publish = false

[dependencies]
pnet = "*"
