[package]
name = "vesc_comm"
version = "0.1.0"
edition = "2021"
publish = false

[dependencies]
crc16 = "*"
