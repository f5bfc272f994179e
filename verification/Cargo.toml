[package]
name = "hyperthree_native"
version = "0.1.0"
edition = "2021"
publish = false

[dependencies]
anyhow = "1"
serde = { version = "1", features = ["derive"] }
serde_json = "1"
toml = "0.8"
clap = { version = "4", features = ["derive"] }
log = "0.4"
env_logger = "0.11"
memmap2 = "0.9"
pollster = "0.3"
bytemuck = { version = "1", features = ["derive"] }
gltf = "1"
boa_engine = { version = "0.21", default-features = false }
