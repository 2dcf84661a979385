[package]
name = "mwwolf"
version = "0.1.0"
edition = "2021"
publish = false

[dependencies]
anyhow = "1"
async-trait = "0.1"
chrono = "0.4"
chrono-tz = "*"
rand = "0.8"
thiserror = "1"
