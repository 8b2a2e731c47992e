[package]
name = "pibot"
version = "0.1.0"
edition = "2021"
publish = false

[dependencies]
dotenv = "*"
reqwest = { version = "*", default-features = false, features = ["blocking"] }
systemstat = "*"
tempfile = "*"
