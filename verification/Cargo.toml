[package]
name = "de_zoomcamp"
version = "0.1.0"
edition = "2021"
publish = false

[dependencies]
anyhow = "=1.0.104"
clap = "=4.6.7"
duckdb = { version = "=1.20000.0", default-features = false }
