[package]
name = "spin_plugins"
version = "0.1.0"
edition = "2021"
publish = false

[dependencies]
anyhow = "*"
clap = { version = "*", features = ["derive"] }
dirs = "*"
flate2 = "*"
reqwest = { version = "*", default-features = false, features = ["blocking"] }
sha2 = "*"
tar = "*"
tempfile = "*"
url = "*"
