[package]
name = "okadjust"
version = "0.1.0"
edition = "2021"
publish = false

[dependencies]
palette = "*"
clap = { version = "*", features = ["derive"] }
anyhow = "*"
