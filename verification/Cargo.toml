[package]
name = "keycounter"
version = "0.1.0"
edition = "2021"
publish = false

[dependencies]
chrono = "*"
rdev = "*"

[dev-dependencies]
serde_json = "*"
