[package]
name = "control"
version = "0.1.0"
edition = "2021"
publish = false

[dependencies]
color-eyre = { version = "0.6", default-features = false }
nalgebra = { version = "0.32", default-features = false, features = ["std"] }
serde = { version = "1", features = ["derive"] }

[dev-dependencies]
approx = "0.5"
