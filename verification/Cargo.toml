[package]
name = "ptytest"
version = "0.1.0"
edition = "2021"
publish = false

[dependencies]
difference = "2.0"
mio = "0.6"
vt100 = "0.15"
