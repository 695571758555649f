[package]
name = "automata"
version = "0.1.0"
edition = "2021"
publish = false

[dependencies]
bytemuck = { version = "1", features = ["derive"] }
cgmath = "0.18"
egui = { version = "0.27", default-features = false }
rand = "0.8"
winit = { version = "0.29", default-features = false, features = ["rwh_06", "x11"] }
