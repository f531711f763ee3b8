[package]
name = "rage_quit"
version = "0.1.0"
edition = "2021"
publish = false

[dependencies]
chrono = "0.4"
clap = { version = "4", features = ["derive"] }
crossterm = "0.27"
rand = "0.8"
walkdir = "2"
