[package]
name = "nchat"
version = "0.1.0"
edition = "2021"
publish = false

[dependencies]
chrono = "0.4"
clap = { version = "4", features = ["derive"] }
cursive = { version = "*", default-features = false, features = ["crossterm-backend"] }
serde = { version = "1", features = ["derive"] }
serde_json = "1"
