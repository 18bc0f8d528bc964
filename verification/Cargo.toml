[package]
name = "bevy_wasm_touch_fix"
version = "0.1.0"
edition = "2021"
publish = false

[dependencies]
bevy_app = "0.12"
bevy_ecs = "0.12"
bevy_input = "0.12"
bevy_log = "0.12"
bevy_math = "0.12"
web-sys = { version = "0.3", features = ["Document", "DomRect", "Element", "Window"] }
