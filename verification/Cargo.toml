[package]
name = "bolt_bevy"
version = "0.1.0"
edition = "2021"
publish = false

[dependencies]
bevy = { version = "0.17", default-features = false, features = ["std", "bevy_log"] }
rolt = "*"
joltc-sys = "*"
