[package]
name = "niloecl"
version = "0.1.0"
edition = "2021"
publish = false

[dependencies]
serde = { version = "*", features = ["derive"] }
serde_json = "*"
twilight-model = "*"
twilight-util = { version = "*", features = ["builder"] }
