[package]
name = "tagged_dispatch"
version = "0.1.0"
edition = "2021"
publish = false

[dependencies]
bumpalo = "3"
typed-arena = "2"
heck = "0.5"
syn = { version = "2", features = ["full"] }
quote = "1"
proc-macro2 = "1"
