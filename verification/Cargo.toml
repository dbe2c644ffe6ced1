[package]
name = "meta_model"
version = "0.1.0"
edition = "2021"
publish = false

[dependencies]
flate2 = "1.0"
prost = { version = "0.13", default-features = false, features = ["std"] }
itertools = "0.13"
