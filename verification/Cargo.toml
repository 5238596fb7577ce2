[package]
name = "btcpeer"
version = "0.1.0"
edition = "2021"
publish = false

[dependencies]
bitcoin = "0.32"
log = "0.4"
rand = "0.8"
socks = "0.3"
