[package]
name = "aplib"
version = "0.1.0"
edition = "2021"
publish = false

[dependencies]
plist = "*"
chrono = "*"
rusqlite = { version = "*", features = ["bundled"] }
clap = { version = "*", features = ["derive"] }
pbr = "*"
