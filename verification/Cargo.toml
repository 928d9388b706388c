[package]
name = "data_over_time"
version = "0.1.0"
edition = "2021"
publish = false

[dependencies]
anyhow = "1"
camino = "1"
chrono = "0.4"
clap = { version = "3", features = ["derive"] }
env_logger = "*"
human_bytes = "*"
rayon = "1"
walkdir = "2"
