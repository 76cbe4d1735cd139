[package]
name = "hostcalls"
version = "0.1.0"
edition = "2021"
publish = false

[dependencies]
cpu-time = "1.0"
lazy_static = "1.4"
log = "0.4"
wasi-common-cbindgen = "*"
winx = "*"
