[package]
name = "bootstrap_dashboard"
version = "0.1.0"
edition = "2021"
publish = false

[dependencies]
askama = "0.12"
axum = "0.7"
include_dir = "0.7"
mime_guess = "2"
