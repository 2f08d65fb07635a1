[package]
name = "scanline_sync"
version = "0.1.0"
edition = "2021"
publish = false

[dependencies]
crossbeam-channel = "*"
clap = { version = "*", features = ["derive"] }
anyhow = "*"
