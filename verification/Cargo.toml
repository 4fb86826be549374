[package]
name = "egui_sdl2_platform"
version = "0.1.0"
edition = "2021"
publish = false

[dependencies]
egui = "0.22"
sdl2 = "0.35"
