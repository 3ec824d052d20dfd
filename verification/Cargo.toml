[package]
name = "macula_std"
version = "0.1.0"
edition = "2021"
publish = false

[dependencies]
hashbrown = { version = "0.15", features = ["raw-entry"] }
spin = "0.9"
