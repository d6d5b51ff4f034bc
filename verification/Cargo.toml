[package]
name = "projectm_sdl"
version = "0.1.0"
edition = "2021"
publish = false

[dependencies]
clap = { version = "4", features = ["derive", "env"] }
confique = { version = "*", features = ["toml"] }
muda = "*"
projectm = "*"
sdl3 = "*"
