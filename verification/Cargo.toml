[package]
name = "frame_loop"
version = "0.1.0"
edition = "2021"
publish = false

[dependencies]
winit = "0.28"
egui-winit = { version = "0.24", default-features = false }
egui = { version = "0.24", default-features = false }
spin_sleep = "1.1"
