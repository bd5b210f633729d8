[package]
name = "now_playing"
version = "0.1.0"
edition = "2021"
publish = false

[dependencies]
rocket = "0.5"
rspotify = { version = "*", default-features = false, features = ["client-reqwest", "reqwest-rustls-tls", "env-file"] }
tokio = { version = "1", features = ["sync", "time", "rt", "macros"] }
webbrowser = "*"
