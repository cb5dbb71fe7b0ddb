[package]
name = "gocar"
version = "0.1.0"
edition = "2021"
publish = false

[dependencies]
clap = { version = "4", features = ["derive"] }
colored = "2"
dialoguer = "0.11"
config = "0.14"
