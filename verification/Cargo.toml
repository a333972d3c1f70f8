[package]
name = "frameloop"
version = "0.1.0"
edition = "2021"
publish = false

[dependencies]
vulkano = "0.34"
winit = { version = "0.30", features = ["rwh_05"] }
smallvec = "1"
ahash = "0.8"
