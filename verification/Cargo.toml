[package]
name = "esptools"
version = "0.1.0"
edition = "2021"
publish = false

[dependencies]
directories = "*"
env_logger = "*"
flate2 = "*"
hex = "*"
log = "*"
sha1 = "*"
zip = { version = "*", default-features = false, features = ["deflate"] }
