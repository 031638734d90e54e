[package]
name = "pyoxidizer_config"
version = "0.1.0"
edition = "2021"
publish = false

[dependencies]
cpython = "0.5"
python-packaging = "0.1"
serde = { version = "1", features = ["derive"] }
toml = "0.5"
