[package]
name = "fractalgen"
version = "0.1.0"
edition = "2021"
publish = false

[dependencies]
bytemuck = "*"
image = { version = "=0.25.10", default-features = false, features = ["png"] }
num-complex = "=0.4.6"
