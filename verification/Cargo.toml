[package]
name = "tamer"
version = "0.1.0"
edition = "2021"
publish = false

[dependencies]
chrono = "*"
clap = "*"
csv = "*"
regex = "*"
serde_derive = "*"
serde_json = "*"
tokio = { version = "*", features = ["rt-multi-thread"] }
