[package]
name = "vrt"
version = "0.1.0"
edition = "2021"
publish = false

[dependencies]
nom = { version = "7", default-features = false }
nom-derive = "0.10"
thiserror = { version = "2", default-features = false }
