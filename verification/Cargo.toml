[package]
name = "portaldi_core"
version = "0.1.0"
edition = "2021"
publish = false

[dependencies]
regex = "=1.13.1"
syn = { version = "=2.0.119", features = ["full"] }
quote = "=1.0.47"
proc-macro2 = "=1.0.107"
once_cell = "=1.21.4"
async-trait = "=0.1.92"
unicode-ident = "=1.0.27"
