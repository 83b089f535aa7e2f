[package]
name = "bitcraft"
version = "0.1.0"
edition = "2021"
publish = false

[dependencies]
spacetimedb = "1"
strum = { version = "0.24", features = ["derive"] }
syn = { version = "2", features = ["full"] }
quote = "1"
proc-macro2 = "1"
