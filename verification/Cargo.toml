[package]
name = "bubble_level"
version = "0.1.0"
edition = "2021"
publish = false

[dependencies]
cortex-m-rt = "0.7"
embedded-hal = "1"
lsm303agr = "1"
microbit-v2 = "*"
panic-rtt-target = "*"
