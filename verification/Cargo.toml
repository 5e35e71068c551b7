[package]
name = "serde_generate_dart"
version = "0.1.0"
edition = "2021"
publish = false

[dependencies]
heck = "0.3"
include_dir = "0.6"
serde-reflection = "0.3"
