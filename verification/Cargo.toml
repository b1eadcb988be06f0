[package]
name = "docker_run"
version = "0.1.0"
edition = "2021"
publish = false

[dependencies]
http = "0.2"
iowrap = "*"
serde = { version = "1", features = ["derive"] }
serde_json = "1"
tiny_http = "*"
