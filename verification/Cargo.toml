[package]
name = "ssr-gtk"
version = "0.1.0"
edition = "2021"
publish = false

[dependencies]
async-std = "=1.13.2"
bardecoder = "=0.5.0"
base64 = "=0.13.1"
crossbeam-channel = "=0.5.17"
dirs = "=7.0.0"
image = "=0.24.9"
lazy_static = "=1.5.1"
screenshot-rs = "=0.1.5"
serde = { version = "=1.0.229", features = ["derive"] }
serde_json = "=1.0.154"
sled = "=0.34.7"
smol = "=2.0.2"
surf = { version = "=2.3.2", default-features = false, features = ["h1-client"] }
url = "=2.5.8"
