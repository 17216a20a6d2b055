[package]
name = "backpacktf"
version = "0.1.0"
edition = "2021"
publish = false

[dependencies]
serde = { version = "=1.0.229", features = ["derive"] }
serde_json = "=1.0.154"
num_enum = "0.5"
tf2-enum = "=0.4.0"
