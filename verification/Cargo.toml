[package]
name = "wally"
version = "0.1.0"
edition = "2021"
publish = false

[dependencies]
anyhow = "=1.0.104"
backtrace = "=0.3.76"
bitflags = "=2.13.2"
chrono = "=0.4.45"
clap = { version = "=4.6.7", features = ["derive"] }
lazy_static = "=1.5.1"
smithay = { version = "=0.7.0", default-features = false, features = ["desktop", "wayland_frontend", "backend_winit"] }
tracing = "=0.1.44"
tracing-subscriber = { version = "=0.3.23", features = ["env-filter"] }
