[package]
name = "thunderclap"
version = "0.1.0"
edition = "2021"
publish = false

[dependencies]
indexmap = "2"
image = { version = "0.23", default-features = false }
