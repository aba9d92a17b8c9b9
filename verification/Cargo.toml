[package]
name = "kepler_wgpu"
version = "0.1.0"
edition = "2021"
publish = false

[dependencies]
anyhow = "1"
bytemuck = "1"
dicom-core = "*"
dicom-object = "*"
log = "0.4"
num = "0.4"
pollster = "*"
serde = { version = "1", features = ["derive"] }
serde_json = "1"
tokio = { version = "1", features = ["fs", "io-util", "macros", "rt-multi-thread", "sync"] }
