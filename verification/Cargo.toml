[package]
name = "korangar_gameplay"
version = "0.1.0"
edition = "2021"
publish = false

[dependencies]
tokio = { version = "1", default-features = false, features = ["sync"] }
serde = { version = "1", features = ["derive"] }
ron = "0.12"
fast-srgb8 = "1"
