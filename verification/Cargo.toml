[package]
name = "activity_energy"
version = "0.1.0"
edition = "2021"
publish = false

[dependencies]
serde = { version = "1", features = ["derive"] }
serde_json = "1"
rdev = "0.5"
tokio = { version = "1", default-features = false, features = ["time", "rt-multi-thread", "macros"] }
