[package]
name = "utils_lib"
version = "0.1.0"
edition = "2021"
publish = false

[dependencies]
syn = "=2.0.119"
proc-macro2 = "=1.0.107"
quote = "=1.0.47"
num-traits = "=0.2.19"
unicode-ident = "=1.0.27"
