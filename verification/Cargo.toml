[package]
name = "embedded_bridge"
version = "0.1.0"
edition = "2021"
publish = false

[dependencies]
heapless = "0.8"
embedded-hal = "0.2"
serial = "0.4"
rustyline = "*"
log = "0.4"
