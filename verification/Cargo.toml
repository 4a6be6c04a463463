[package]
name = "litrpc"
version = "0.1.0"
edition = "2021"
publish = false

[dependencies]
clap = "*"
cursive = "*"
reqwest = { version = "*", default-features = false, features = ["blocking"] }

[dev-dependencies]
serde_json = "*"
