[package]
name = "rpi_display"
version = "0.1.0"
edition = "2021"
publish = false

[dependencies]
rand = "0.8"
tokio = { version = "1", features = ["time", "rt", "signal", "macros"] }
embedded-graphics = "0.8"
