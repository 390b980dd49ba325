[package]
name = "param_shaders"
version = "0.1.0"
edition = "2021"
publish = false

[dependencies]
radsort = "0.1.1"
bytemuck = { version = "1", features = ["derive"] }
uuid = "1"
