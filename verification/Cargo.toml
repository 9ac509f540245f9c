[package]
name = "lux"
version = "0.1.0"
edition = "2021"
publish = false

[dependencies]
glium = "0.36"
image = { version = "0.25", default-features = false, features = ["png"] }
vecmath = "1.0"
num = "0.4"
clock_ticks = "0.1"
font-atlas = "*"
