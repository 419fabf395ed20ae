[package]
name = "gbr"
version = "0.1.0"
edition = "2021"
publish = false

[dependencies]
clap = { version = "*", features = ["derive"] }
sdl3 = "*"
serde = { version = "*", features = ["derive"] }
serde_json = "*"
