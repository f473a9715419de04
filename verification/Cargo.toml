[package]
name = "instance_bootstrap"
version = "0.1.0"
edition = "2021"
publish = false

[dependencies]
anyhow = "1"
log = "0.4"
pretty_env_logger = "0.5"
vulkanalia = { version = "0.22", features = ["libloading", "window"] }
winit = "0.28"
