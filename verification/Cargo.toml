[package]
name = "stim"
version = "0.1.0"
edition = "2021"
publish = false

[dependencies]
rand = "=0.9.5"
rodio = { version = "=0.20.1", default-features = false, features = ["mp3"] }
