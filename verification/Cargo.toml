[package]
name = "jiggler"
version = "0.1.0"
edition = "2021"
publish = false

[dependencies]
clap = { version = "*", features = ["derive"] }
enigo = "*"
env_logger = "*"
log = "*"
