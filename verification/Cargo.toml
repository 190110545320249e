[package]
name = "tcp_ipc"
version = "0.1.0"
edition = "2021"
publish = false

[dependencies]
log = "0.4"
mio = "0.6"
simplelog = "0.5"
