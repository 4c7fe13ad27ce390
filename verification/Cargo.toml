[package]
name = "im2as"
version = "0.1.0"
edition = "2021"
publish = false

[dependencies]
image = "0.24"
owo-colors = "4"
clap = { version = "4", features = ["derive"] }
