[package]
name = "warp_i18n"
version = "0.1.0"
edition = "2021"
publish = false

[dependencies]
serde = { version = "1", features = ["derive"] }
schemars = "0.8"
rust-embed = "8"
