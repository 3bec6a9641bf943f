[package]
name = "carddav"
version = "0.1.0"
edition = "2021"
publish = false

[dependencies]
minidom = "*"
reqwest = { version = "*", features = ["blocking"] }
