[package]
name = "rsmonad"
version = "0.1.0"
edition = "2021"
publish = false

[dependencies]
ahash = "*"
heck = "*"
proc-macro2 = "*"
