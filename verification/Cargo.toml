[package]
name = "vane"
version = "0.1.0"
edition = "2021"
publish = false

[dependencies]
bevy_math = "=0.19.1"
bytemuck = "=1.25.2"

[dev-dependencies]
half = "=2.7.1"
