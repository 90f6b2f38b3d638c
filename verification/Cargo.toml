[package]
name = "playlist_query"
version = "0.1.0"
edition = "2021"
publish = false

[dependencies]
regex = "*"
clap = { version = "*", features = ["derive"] }
csv = "*"
id3 = "*"
num_cpus = "*"
rayon = "*"
walkdir = "*"
serde = { version = "*", features = ["derive"] }
