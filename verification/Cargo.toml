[package]
name = "supervisely-format"
version = "0.1.0"
edition = "2021"
publish = false

[dependencies]
base64 = "0.22"
flate2 = "1"
hex_color = "*"
indexmap = "2"
noisy_float = "0.2"
palette = "0.7"
serde_json = { version = "1", features = ["preserve_order"] }
thiserror = "1"
tracing = "0.1"
