[package]
name = "impatience"
version = "1.0.0"
edition = "2021"
publish = false

[dependencies]
rkyv = "0.8"
serde = { version = "1", features = ["derive"] }
serde_json = "1"
clap = { version = "4", features = ["derive"] }
crossterm = "0.28"
rand = "0.8"
libc = "0.2"
statrs = "0.17"
