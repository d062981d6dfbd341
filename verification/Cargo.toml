[package]
name = "juniper_codegen"
version = "0.1.0"
edition = "2021"
publish = false

[dependencies]
url = "2"
syn = { version = "1", features = ["full", "extra-traits", "visit"] }
quote = "1"
proc-macro2 = "1"
