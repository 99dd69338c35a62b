[package]
name = "r3_port_rx"
version = "0.1.0"
edition = "2021"
publish = false

[dependencies]
r3_core = "*"
r3_kernel = "*"
r3_portkit = "*"
seq-macro = "*"
staticvec = "*"
tock-registers = "*"
