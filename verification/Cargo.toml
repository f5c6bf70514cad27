[package]
name = "player_shell"
version = "0.1.0"
edition = "2021"
publish = false

[dependencies]
which = "*"
urlencoding = "2"
serde = { version = "1", features = ["derive"] }
