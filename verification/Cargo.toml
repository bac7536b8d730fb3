[package]
name = "game_core"
version = "0.1.0"
edition = "2021"
publish = false

[dependencies]
sdl3 = { version = "*", features = ["ttf"] }
serde = { version = "1", features = ["derive"] }
serde_json = "1"
toml = "*"
bitmask-enum = "2"
