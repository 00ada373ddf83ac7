[package]
name = "scaffold"
version = "0.1.0"
edition = "2021"
publish = false

[dependencies]
handlebars = "4"
serde_json = "1"
serde = { version = "1", features = ["derive"] }
anyhow = "1"
clap = { version = "4", features = ["derive"] }
