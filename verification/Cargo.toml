[package]
name = "tmag5170"
version = "0.1.0"
edition = "2021"
publish = false

[dependencies]
crc_all = "*"
embedded-hal = "0.2"
