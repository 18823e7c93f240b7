[package]
name = "goban_svg"
version = "0.1.0"
edition = "2021"
publish = false

[dependencies]
svg = "*"
sgf-parse = "*"
serde = { version = "1", features = ["derive"] }
