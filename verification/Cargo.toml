[package]
name = "music_player"
version = "0.1.0"
edition = "2021"
publish = false

[dependencies]
anyhow = "1"
base64 = "0.21"
blake3 = "1"
hound = "3"
id3 = "1"
lofty = "0.18"
rand = "0.8"
rfd = "0.14"
rodio = "0.19"
serde = { version = "1", features = ["derive"] }
tokio = { version = "1", features = ["rt", "time", "sync"] }
walkdir = "2"
