[package]
name = "reclaim"
version = "0.1.0"
edition = "2021"
publish = false

[dependencies]
memoffset = "=0.9.1"
elain = "=0.3.1"
