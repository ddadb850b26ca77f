[package]
name = "surface-dial-overlay"
version = "0.1.0"
edition = "2021"
publish = false

[dependencies]
anyhow = "1"
calloop = "0.13"
calloop-wayland-source = "0.3"
env_logger = "0.11"
futures-util = "0.3"
log = "0.4"
serde = { version = "1", features = ["derive"] }
smithay-client-toolkit = { version = "0.19", default-features = false, features = ["calloop"] }
tiny-skia = { version = "0.11", default-features = false, features = ["std", "simd"] }
tokio = { version = "1", features = ["rt", "macros", "time"] }
toml = "0.8"
wayland-client = "0.31"
zbus = "4"
