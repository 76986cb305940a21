[package]
name = "vision_ocr"
version = "0.1.0"
edition = "2021"
publish = false

[dependencies]
anyhow = "=1.0.104"
napi = { version = "=3.15.0", features = ["napi4", "error_anyhow"] }
napi-derive = "=3.6.13"
objc2 = "=0.6.5"
objc2-core-foundation = "=0.3.2"
objc2-foundation = "=0.3.2"
objc2-vision = "=0.3.2"
thiserror = "=2.0.21"
