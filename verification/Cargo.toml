[package]
name = "rpi3_periph"
version = "0.1.0"
edition = "2021"
publish = false

[dependencies]
cortex-a = { version = "=8.1.1", default-features = false }
heapless = "=0.8.0"
nb = "=1.1.0"
rgb = "=0.8.53"
void = "=1.0.2"
