[package]
name = "lowfi"
version = "0.1.0"
edition = "2021"
publish = false

[dependencies]
crossterm = "*"
unicode-segmentation = "*"
tokio = { version = "*", features = ["rt-multi-thread", "macros", "sync", "time"] }
arc-swap = "*"
reqwest = { version = "*", default-features = false }
rodio = { version = "*", default-features = false }
