[package]
name = "public_api"
version = "0.1.0"
edition = "2021"
publish = false

[dependencies]
rustdoc-types = "0.11.0"
serde_json = "1"
thiserror = "1"
