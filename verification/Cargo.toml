[package]
name = "blend"
version = "0.1.0"
edition = "2021"
publish = false

[dependencies]
clap = { version = "4", features = ["derive"] }
fs_extra = "1"
serde = { version = "1", features = ["derive"] }
serde_with = "3"
serde_yaml = "0.9"
tempfile = "3"
