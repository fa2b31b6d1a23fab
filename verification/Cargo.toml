[package]
name = "rcore_os"
version = "0.1.0"
edition = "2021"
publish = false

[dependencies]
log = "0.4"
riscv = "*"
lazy_static = "1"
bitflags = "*"
