[package]
name = "oxids"
version = "0.1.0"
edition = "2021"
publish = false

[dependencies]
anyhow = "1"
clap = { version = "4", features = ["derive"] }
crossbeam = "0.8"
dasp_sample = "*"
pixels = "*"
rodio = "*"
rusb = "0.9"
winit = "0.30"
winit_input_helper = "*"
