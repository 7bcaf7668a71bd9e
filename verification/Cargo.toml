[package]
name = "render"
version = "0.1.0"
edition = "2021"
publish = false

[dependencies]
image = "0.24"
bytemuck = "1"
auto_ops = "0.3"
