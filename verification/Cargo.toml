[package]
name = "bendpipe"
version = "0.1.0"
edition = "2021"
publish = false

[dependencies]
bend-lang = "*"
clap = { version = "*", features = ["derive"] }
