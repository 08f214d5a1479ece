[package]
name = "akari"
version = "0.1.0"
edition = "2021"
publish = false

[dependencies]
anyhow = "1"
clap = { version = "4", features = ["derive"] }
dotenvy = "*"
easy_color = "*"

[dev-dependencies]
binrw = "*"
