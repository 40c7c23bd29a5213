[package]
name = "routing"
version = "0.1.0"
edition = "2021"
publish = false

[dependencies]
rand = "=0.10.3"
sodiumoxide = "=0.2.7"
rustc-serialize = "=0.3.25"
cbor = "=0.3.16"
