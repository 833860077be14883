[package]
name = "get_size"
version = "0.1.0"
edition = "2021"
publish = false

[dependencies]
serde_json = "=1.0.154"
indexmap = "=2.14.2"
syn = "=2.0.119"
quote = "=1.0.47"
proc-macro2 = "=1.0.107"
