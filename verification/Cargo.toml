[package]
name = "velocity"
version = "0.1.0"
edition = "2021"
publish = false

[dependencies]
termion = "1.5"
textwrap = "0.11"
toml = "0.4"
walkdir = "2"
serde = { version = "1", features = ["derive"] }
serde_derive = "1"
