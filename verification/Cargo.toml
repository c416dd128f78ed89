[package]
name = "serde_xdr"
version = "0.6.0"
edition = "2021"
publish = false

[dependencies]
byteorder = "1"
serde = "1"
