[package]
name = "deimos"
version = "0.1.0"
edition = "2021"
publish = false

[dependencies]
anyhow = "=1.0.104"
log = "=0.4.34"
sdl2 = { version = "=0.38.0", features = ["image", "mixer"] }
sdl2-sys = "=0.38.0"
simple_logger = "=5.2.0"
thiserror = "=2.0.21"
