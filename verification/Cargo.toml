[package]
name = "empty_type"
version = "0.1.0"
edition = "2021"
publish = false

[dependencies]
serde = { version = "1", features = ["derive"] }
serde_json = "1"
syn = "1"
quote = "1"
proc-macro2 = "1"
