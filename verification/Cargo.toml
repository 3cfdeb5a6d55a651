[package]
name = "rooc"
version = "0.1.0"
edition = "2021"
publish = false

[dependencies]
indexmap = { version = "2", features = ["serde"] }
num-traits = "=0.2.19"
serde = { version = "=1.0.229", features = ["derive"] }
