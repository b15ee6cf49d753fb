[package]
name = "minirtos"
version = "0.1.0"
edition = "2021"
publish = false

[dependencies]
heapless = "0.8"
pio = "0.3"
cortex-m = "0.7"
rp235x-pac = "0.1"
rp235x-hal = "0.3"
