[package]
name = "vkapp"
version = "0.1.0"
edition = "2021"
publish = false

[dependencies]
ash = "0.31"
cgmath = "0.17"
memoffset = "0.5"
rand = { version = "0.7", features = ["small_rng"] }
winapi = { version = "0.3", features = ["libloaderapi", "windef"] }
winit = "0.22"
