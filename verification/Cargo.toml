[package]
name = "spirv-to-dxil"
version = "0.1.0"
edition = "2021"
publish = false

[dependencies]
bytemuck = "1"
bitflags = "1"
thiserror = "1"
bindgen = "0.69"
cmake = "0.1"
