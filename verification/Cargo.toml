[package]
name = "ecap"
version = "0.1.0"
edition = "2021"
publish = false

[dependencies]
crossbeam = "0.3"
lazy_static = "1"
libc = "0.2"
mopa = "0.2"
