[package]
name = "trailscan"
version = "0.1.0"
edition = "2021"
publish = false

[dependencies]
tokio = { version = "*", features = ["full"] }
futures = "*"
async-trait = "*"
clap = { version = "*", features = ["derive"] }
indicatif = "*"
url = "*"
