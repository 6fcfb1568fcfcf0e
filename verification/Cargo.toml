[package]
name = "rwave"
version = "0.1.0"
edition = "2021"
publish = false

[dependencies]
id3 = "*"
rodio = "*"
rusqlite = { version = "*", features = ["bundled"] }
serde = { version = "*", features = ["derive"] }
serde_json = "*"
