[package]
name = "serde_struct_compact"
version = "0.1.0"
edition = "2021"
publish = false

[dependencies]
syn = "=2.0.119"
proc-macro2 = "=1.0.107"
quote = "1"
