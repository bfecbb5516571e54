[package]
name = "music_sheets"
version = "0.1.0"
edition = "2021"
publish = false

[dependencies]
camino = "1"
clap = { version = "4", features = ["derive"] }
rayon = "1"
walkdir = "2"
