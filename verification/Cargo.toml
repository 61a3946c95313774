[package]
name = "nomnom"
version = "0.1.0"
edition = "2021"
publish = false

[dependencies]
embedded-graphics = "0.7"
embedded-hal = "0.2"
heapless = "0.7"
lis3dh = "0.4"
panic-halt = "0.2"
pygamer = "0.9"
st7735-lcd = "0.8"
tinybmp = "0.3"
