[package]
name = "dabmux_gui"
version = "0.1.0"
edition = "2021"
publish = false

[dependencies]
serde_json = "*"
chrono = "*"
serde = { version = "*", features = ["derive"] }
toml = "*"
zmq = "*"
anyhow = "*"
