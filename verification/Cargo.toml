[package]
name = "fields"
version = "0.1.0"
edition = "2021"
publish = false

[dependencies]
once_cell = "=1.21.4"
proc-macro2 = "=1.0.107"
quote = "=1.0.47"
syn = "=2.0.119"
