[package]
name = "json_preview"
version = "0.1.0"
edition = "2021"
publish = false

[dependencies]
serde_json = { version = "1", features = ["preserve_order"] }
indexmap = "2"
rfd = "0.14"
