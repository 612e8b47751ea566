[package]
name = "data_storage_service"
version = "0.1.0"
edition = "2021"
publish = false

[dependencies]
magic-crypt = "*"
rand = "*"
redis = "*"
tide = "*"
async-std = { version = "*", features = ["attributes"] }
