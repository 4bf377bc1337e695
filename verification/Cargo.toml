[package]
name = "xdc"
version = "0.1.0"
edition = "2021"
publish = false

[dependencies]
linkme = "=0.3.37"
mident = "=0.0.1"
proc-macro2 = "=1.0.107"
quote = "=1.0.47"
syn = { version = "=1.0.109", features = ["full", "extra-traits"] }
