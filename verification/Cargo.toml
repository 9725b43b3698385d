[package]
name = "anomaly_viz"
version = "0.1.0"
edition = "2021"
publish = false

[dependencies]
image = { version = "*", default-features = false }
ndarray = "*"
serde = { version = "*", features = ["derive"] }
