[package]
name = "material"
version = "0.1.5"
edition = "2021"
publish = false

[dependencies]
clap = { version = "4", features = ["derive"] }
colored = "2"
image = "0.24"
rand = "0.8"
regex = "1"
