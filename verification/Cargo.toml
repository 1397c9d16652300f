[package]
name = "clipview"
version = "0.1.0"
edition = "2021"
publish = false

[dependencies]
anyhow = "1"
arboard = "3"
image = { version = "0.24", default-features = false }
softbuffer = "0.3"
thiserror = "1"
winit = "0.28"
