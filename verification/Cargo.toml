[package]
name = "keycode"
version = "0.1.0"
edition = "2021"
publish = false

[dependencies]
arraydeque = "=0.5.1"
serde = { version = "1", features = ["derive"] }
