[package]
name = "meshio"
version = "0.1.0"
edition = "2021"
publish = false

[dependencies]
nom = "7.1"
cgmath = "0.18"
bitflags = "1.3"
byteorder = "1"
