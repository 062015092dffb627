[package]
name = "overlay_shell"
version = "0.1.0"
edition = "2021"
publish = false

[dependencies]
open = "5"
serde = { version = "1", features = ["derive"] }
