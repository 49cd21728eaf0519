[package]
name = "vst3_host"
version = "0.1.0"
edition = "2021"
publish = false

[dependencies]
bitflags = "2"
either = "1"
json5 = "*"
libc = "0.2"
serde = { version = "1", features = ["derive"] }
serde_with = "3"
tracing = "0.1"
vst3 = "*"
winit = "0.30"
