[package]
name = "k210_os"
version = "0.1.0"
edition = "2021"
publish = false

[dependencies]
k210-hal = "0.2.0"
k210-pac = "0.2.0"
lazy_static = "1.4.0"
spin = "0.5.2"
bitflags = "1.3.2"
