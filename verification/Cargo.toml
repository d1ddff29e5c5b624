[package]
name = "active_window_watcher"
version = "0.1.0"
edition = "2021"
publish = false

[dependencies]
serde = { version = "=1.0.229", features = ["derive"] }
x-win = "=5.8.0"
