[package]
name = "rotation_average"
version = "0.1.0"
edition = "2021"
publish = false

[dependencies]
glam = { version = "=0.30.10", features = ["bytemuck", "libm", "scalar-math"] }
bytemuck = "=1.25.2"
turborand = "=0.10.1"
bevy = { version = "=0.17.3", default-features = false }
