[package]
name = "json-list"
version = "0.1.0"
edition = "2021"
publish = false

[dependencies]
atty = "0.2"
clap = { version = "4", features = ["derive"] }
colored = "2"
indexmap = { version = "2", features = ["serde"] }
regex = "1"
serde_json = "1"
term_size = "0.3"
