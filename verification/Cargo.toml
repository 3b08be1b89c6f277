[package]
name = "carlink"
version = "0.1.0"
edition = "2021"
publish = false

[dependencies]
arc-swap = "*"
joycon-rs = "*"
serialport = "*"
