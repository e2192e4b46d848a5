[package]
name = "fbvideo"
version = "0.1.0"
edition = "2021"
publish = false

[dependencies]
clap = "*"
futures = "*"
reqwest = { version = "*", default-features = false, features = ["gzip"] }
tokio = { version = "*", features = ["rt-multi-thread"] }
