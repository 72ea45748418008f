[package]
name = "abibool"
version = "0.5.3"
edition = "2021"
publish = false

[dependencies]
bytemuck = "1"
