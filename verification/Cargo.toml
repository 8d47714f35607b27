[package]
name = "railroad_harness"
version = "0.1.0"
edition = "2021"
publish = false

[dependencies]
env_logger = "0.9"
failure = "0.1"
headless_chrome = "0.9"
log = "0.4"
tempdir = "0.3"
zip = { version = "0.6", default-features = false, features = ["deflate"] }
