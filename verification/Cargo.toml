[package]
name = "linux_platform"
version = "0.1.0"
edition = "2021"
publish = false

[dependencies]
regex = "1"
log = "0.4"
libc = "0.2"
ctrlc = "3"
pulsectl-rs = "0.3"
