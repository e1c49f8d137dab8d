[package]
name = "dualcam"
version = "0.1.0"
edition = "2021"
publish = false

[dependencies]
anyhow = "=1.0.104"
clap = { version = "=4.6.7", features = ["derive"] }
glium = "=0.34.0"
# What src/capture.rs trusts of the decoder rests on both features: with
# `platform_independent` it runs no code that differs between machines, and
# with `rayon` it spawns no threads of its own, whose failure it would report
# as a decoding error.
jpeg-decoder = { version = "=0.3.2", features = ["platform_independent", "rayon"] }
v4l = "=0.14.0"
winit = "=0.29.15"

[dev-dependencies]
rayon = "=1.12.0"
