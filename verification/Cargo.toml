[package]
name = "cc26x0"
version = "0.1.0"
edition = "2021"

[dependencies]
bitfield = "0.13.2"
