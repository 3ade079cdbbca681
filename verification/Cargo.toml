[package]
name = "hydroflow"
version = "0.1.0"
edition = "2021"
publish = false

[dependencies]
itertools = "*"
proc-macro2 = { version = "*", features = ["span-locations"] }
syn = { version = "*", features = ["full"] }
