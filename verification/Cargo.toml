[package]
name = "launchk"
version = "0.1.0"
edition = "2021"
publish = false

[dependencies]
block = "*"
cursive = { version = "*", default-features = false, features = ["crossterm-backend"] }
sudo = "*"
tokio = { version = "1", features = ["rt-multi-thread", "time"] }
