[package]
name = "d3term"
version = "0.1.0"
edition = "2021"
publish = false

[dependencies]
shell-words = "1"
portable-pty = "*"
serde = { version = "1", features = ["derive"] }
toml = "*"
notify = "*"
tauri = { version = "2", default-features = false }
