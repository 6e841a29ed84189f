[package]
name = "rhi_core"
version = "0.1.0"
edition = "2021"
publish = false

[dependencies]
anyhow = "1"
cgmath = "0.18"
log = "0.4"
pretty_env_logger = "0.5"
serde = { version = "1", features = ["derive"] }
serde_json = "1"
serde_repr = "0.1"
tokio = { version = "1", features = ["macros", "rt-multi-thread", "fs"] }
vulkanalia = { version = "*", features = ["libloading", "window"] }
winit = "0.30"
