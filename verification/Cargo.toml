[package]
name = "block_verification"
version = "0.1.0"
edition = "2021"
publish = false

[dependencies]
fnv = "1"
rayon = "1"
bigint = "4"
