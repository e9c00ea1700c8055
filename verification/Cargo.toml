[package]
name = "basisu_loader"
version = "0.1.0"
edition = "2021"
publish = false

[dependencies]
bevy = { version = "=0.17.3", default-features = false, features = ["bevy_asset", "bevy_log", "bevy_render"] }
clap = { version = "=4.6.7", features = ["derive"] }
js-sys = "=0.3.106"
serde = { version = "=1.0.229", features = ["derive"] }
thiserror = "=2.0.21"
wasm-bindgen = "=0.2.129"
wasm-bindgen-futures = "=0.4.79"
wgpu-types = "=26.0.0"
