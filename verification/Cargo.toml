[package]
name = "wasmstore"
version = "0.1.0"
edition = "2021"
publish = false

[dependencies]
wasmparser = { version = "=0.261.0", default-features = false, features = ["std", "validate", "features", "component-model", "simd"] }
reqwest = { version = "=0.13.5", default-features = false, features = ["json"] }
serde = { version = "=1.0.229", features = ["derive"] }
anyhow = "=1.0.104"
