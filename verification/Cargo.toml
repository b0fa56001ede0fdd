[package]
name = "factura"
version = "0.1.0"
edition = "2021"
publish = false

[dependencies]
askama = "0.14"
genpdf = "=0.2.0"
rust-embed = "=8.13.0"
serde = { version = "=1.0.229", features = ["derive"] }
serde_json = "=1.0.154"
toml = "=0.8.23"
