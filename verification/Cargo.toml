[package]
name = "big_fat"
version = "0.1.0"
edition = "2021"
publish = false

[dependencies]
anyhow = "=1.0.104"
clap = "=2.34.0"
hound = "=3.5.1"
rayon = "=1.12.0"
rodio = { version = "=0.21.1", default-features = false, features = ["flac", "vorbis", "wav", "mp3"] }
walkdir = "=2.5.0"
