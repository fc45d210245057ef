[package]
name = "screen_calibrator"
version = "0.1.0"
edition = "2021"
publish = false

[dependencies]
anyhow = "1"
embedded-graphics = "*"
embedded-graphics-simulator = "*"
evdev = { version = "0.12", features = ["tokio"] }
framebuffer = "*"
log = "0.4"
sdl2 = "*"
simple_logger = "*"
tokio = { version = "1", features = ["macros", "rt", "time"] }
