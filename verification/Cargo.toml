[package]
name = "launcher"
version = "0.1.0"
edition = "2021"
publish = false

[dependencies]
tokio = { version = "1", features = ["rt-multi-thread", "macros", "process"] }
tauri = { version = "2", default-features = false }
