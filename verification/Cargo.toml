[package]
name = "magnet"
version = "0.1.0"
edition = "2021"
publish = false

[dependencies]
anyhow = "*"
arboard = { version = "*", default-features = false }
chrono = "*"
colored = "*"
dirs = "*"
fastrand = "*"
rayon = "*"

[dev-dependencies]
serde_json = "*"
