[package]
name = "texture_atlas"
version = "0.1.0"
edition = "2021"
publish = false

[dependencies]
ahash = "=0.7.8"
bevy_asset = "=0.5.1"
bevy_core = "=0.5.0"
bevy_math = "=0.5.0"
bevy_reflect = "=0.5.0"
bevy_render = "=0.5.0"
bevy_utils = "=0.5.0"
darling_macro = "=0.10.2"
