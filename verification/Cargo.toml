[package]
name = "pomodoro_watch"
version = "0.1.0"
edition = "2021"
publish = false

[dependencies]
serde_json = "1"
zbus = "3"
async-std = { version = "1", features = ["attributes"] }
futures-util = "0.3"
