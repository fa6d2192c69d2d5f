[package]
name = "kubelingo"
version = "0.1.0"
edition = "2021"
publish = false

[dependencies]
tempfile = "*"
portable-pty = "*"
clap = { version = "*", features = ["derive"] }
dialoguer = "*"
rusqlite = { version = "*", features = ["bundled"] }
anyhow = "*"
