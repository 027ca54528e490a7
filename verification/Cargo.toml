[package]
name = "ovr_overlay"
version = "0.1.0"
edition = "2021"
publish = false

[dependencies]
derive_more = "0.99"
enumset = "1"
lazy_static = "1.4"
nalgebra = { version = "0.31", default-features = false, features = ["std"] }
slice-of-array = "*"
thiserror = "1"
