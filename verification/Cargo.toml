[package]
name = "magma-lava"
version = "0.1.0"
edition = "2021"
publish = false

[dependencies]
indexmap = { version = "2", features = ["serde"] }
magma-config = "*"
magma-plan = "*"
magma-types = "*"
serde = { version = "1", features = ["derive"] }
serde_json = "1"
thiserror = "2"
uuid = "1"
