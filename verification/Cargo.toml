[package]
name = "fretboard"
version = "0.1.0"
edition = "2021"
publish = false

[dependencies]
catppuccin = "*"
log = "*"
serde = { version = "*", features = ["derive"] }
toml = "*"
xdg = "*"
