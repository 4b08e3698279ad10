[package]
name = "fl16_inputmodules"
version = "0.1.0"
edition = "2021"
publish = false

[dependencies]
st7306 = "*"
