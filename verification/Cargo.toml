[package]
name = "torque_tracker"
version = "0.1.0"
edition = "2021"
publish = false

[dependencies]
font8x8 = "=0.3.1"
ascii = "=1.1.0"
winit = "=0.30.13"
softbuffer = "=0.4.8"
left-right = "=0.11.8"
symphonia = "=0.5.5"
rfd = "*"
