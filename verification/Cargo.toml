[package]
name = "goldie"
version = "0.1.0"
edition = "2021"
publish = false

[dependencies]
anyhow = "1"
once_cell = "1"
pretty_assertions = "1"
serde = { version = "1", features = ["derive"] }
serde_json = "1"
upon = "0.6"
yansi = "0.5"
