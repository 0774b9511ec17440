[package]
name = "music_player"
version = "1.1.0"
edition = "2021"
publish = false

[dependencies]
clap = { version = "4", features = ["cargo"] }
crossterm = "*"
dialoguer = "*"
id3 = "1"
ratatui = "*"
