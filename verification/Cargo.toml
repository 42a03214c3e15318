[package]
name = "golden_compare"
version = "0.1.0"
edition = "2021"
publish = false

[dependencies]
anyhow = "1"
approx = "0.5"
cfg-expr = "*"
image = { version = "0.25", default-features = false, features = ["png"] }
regex = "1"
serde = { version = "1", features = ["derive"] }
toml = "0.8"
vfs = "*"
