[package]
name = "galatea"
version = "0.1.0"
edition = "2021"
publish = false

[dependencies]
anyhow = "1"
chrono = "0.4"
clap = "4"
cursive = { version = "0.20", default-features = false, features = ["crossterm-backend"] }
dirs = "5"
env_logger = "0.10"
flate2 = "1"
lazy_static = "1"
libc = "0.2"
log = "0.4"
reqwest = { version = "0.11", default-features = false, features = ["blocking"] }
serde = { version = "1", features = ["derive"] }
serde_yaml = "0.9"
signal-hook = "0.3"
tar = "0.4"
zip = { version = "0.6", default-features = false, features = ["deflate"] }
