[package]
name = "nping"
version = "0.4.0"
edition = "2021"
publish = false

[dependencies]
clap = { version = "*", features = ["derive"] }
pnet = "*"
ratatui = "*"
tokio = { version = "*", features = ["rt-multi-thread"] }
