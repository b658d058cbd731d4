[package]
name = "journey2"
version = "0.1.0"
edition = "2021"
publish = false

[dependencies]
chrono = "*"
chrono-tz = "*"
clap = { version = "*", features = ["derive"] }
crossterm = "*"
curl = { version = "*", default-features = false }
directories = "*"
dirs = "*"
glob = "*"
isocountry = "*"
press-btn-continue = "*"
serde = { version = "*", features = ["derive"] }
serde_json = "*"
toml = "*"
walkdir = "*"
