[package]
name = "geschichte"
version = "0.1.0"
edition = "2021"
publish = false

[dependencies]
lru = "0.12"
regex = "1"
ratatui = "0.29"
crossterm = "0.28"
clap = { version = "4", features = ["derive"] }
arboard = { version = "3", default-features = false }
syntect = { version = "5", default-features = false, features = ["default-fancy"] }
chrono = "0.4"
fuzzy-matcher = "0.3"
thiserror = "1"
anyhow = "1"
