[package]
name = "declpatch"
version = "0.1.0"
edition = "2021"
publish = false

[dependencies]
syn = { version = "*", features = ["full"] }
quote = "*"
proc-macro2 = "*"
serde = { version = "*", features = ["derive"] }
serde_json = "*"
tempfile = "*"
