[package]
name = "rock_wire"
version = "0.1.0"
edition = "2021"
publish = false

[dependencies]
serde = { version = "1", features = ["derive"] }
serde_json = "1"
serde_repr = "0.1"
strum = { version = "0.26", features = ["derive"] }
chrono = { version = "0.4", default-features = false, features = ["serde", "std"] }
