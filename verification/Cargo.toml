[package]
name = "scene_editor"
version = "0.1.0"
edition = "2021"

[dependencies]
rg3d = "*"
rg3d-core = "*"
