[package]
name = "control_mapping"
version = "0.1.0"
edition = "2021"
publish = false

[dependencies]
derive_more = "0.99"
enum-iterator = "0.6"
num_enum = "0.5"
serde = { version = "1", features = ["derive"] }
serde_repr = "0.1"
