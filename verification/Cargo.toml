[package]
name = "termusic_daemon"
version = "0.1.0"
edition = "2021"
publish = false

[dependencies]
rand = "0.8"
pathdiff = { version = "0.2", features = ["camino"] }
serde = { version = "1", features = ["derive"] }
bincode = "1"
anyhow = "1"
