[package]
name = "tomato"
version = "0.1.0"
edition = "2021"
publish = false

[dependencies]
serde = { version = "=1.0.229", features = ["derive"] }
toml = "=0.5.11"
imgui = "=0.11.0"
imgui-glow-renderer = "=0.11.0"
imgui-sdl2-support = "=0.11.0"
sdl2 = "=0.34.5"
eframe = { version = "=0.20.1", default-features = false, features = ["default_fonts", "glow"] }
