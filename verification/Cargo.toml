[package]
name = "include_zstd"
version = "0.1.0"
edition = "2021"
publish = false

[dependencies]
ruzstd = "0.7"
zstd = "0.13"
syn = "2"
proc-macro-crate = "3"
