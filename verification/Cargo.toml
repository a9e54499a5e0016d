[package]
name = "ferrous_core"
version = "0.3.0"
edition = "2021"
publish = false

[dependencies]
rand = "0.8"
serde = { version = "1", features = ["derive"] }
serde_json = "1"
clap = "2.33"
sdl2 = "0.34"
glium = "0.29"
imgui = "0.7"
imgui-glium-renderer = "0.7"
imgui-winit-support = "0.7"
imgui-memory-editor = "*"
nfd2 = "*"
rodio = "0.13"
image = "0.23"
