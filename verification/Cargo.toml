[package]
name = "swapchain_negotiator"
version = "0.1.0"
edition = "2021"
publish = false

[dependencies]
anyhow = "1"
ash = "0.37"
ash-window = "0.12"
raw-window-handle = "0.5"
winit = { version = "0.29", features = ["rwh_05"] }
