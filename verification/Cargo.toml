[package]
name = "led_life"
version = "0.1.0"
edition = "2021"
publish = false

[dependencies]
nanorand = "*"
microbit = "*"
embedded-hal = "*"
cortex-m-rt = "*"
panic-rtt-target = "*"
rtt-target = "*"
