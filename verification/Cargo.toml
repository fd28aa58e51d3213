[package]
name = "pages"
version = "0.1.0"
edition = "2021"
publish = false

[dependencies]
askama = "0.14"
axum = "0.8"
reqwest = "0.12"
