[package]
name = "music_tag_core"
version = "0.1.0"
edition = "2021"
publish = false

[dependencies]
anyhow = "*"
audiotags = "*"
chrono = "*"
clap = { version = "*", features = ["derive"] }
encoding = "*"
encoding_rs = "*"
fancy-regex = "*"
homedir = "*"
regex = "*"
serde = { version = "*", features = ["derive"] }
serde_json = "*"
titlecase = "*"
toml = "*"
walkdir = "*"
