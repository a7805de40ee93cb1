[package]
name = "rope_view"
version = "0.1.0"
edition = "2021"
publish = false

[dependencies]
ropey = { version = "1", default-features = false }
smallvec = "1"
