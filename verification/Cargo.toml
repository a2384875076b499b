[package]
name = "schooltape_bot"
version = "0.1.0"
edition = "2021"
publish = false

[dependencies]
anyhow = "*"
poise = "*"
shuttle-runtime = "*"
shuttle-serenity = "*"
tracing = "*"
tokio = "*"
