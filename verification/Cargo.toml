[package]
name = "solprobe"
version = "0.1.0"
edition = "2021"
publish = false

[dependencies]
json = "0.12"
serde = { version = "1", features = ["derive"] }
serde_json = "1"
serde_path_to_error = "0.1"
smol = "1"
surf = { version = "2", default-features = false, features = ["h1-client-rustls"] }
