[package]
name = "twilight_cloudflare_workers"
version = "0.1.0"
edition = "2021"
publish = false

[dependencies]
ed25519-dalek = "*"
serde_json = "*"
twilight-model = "*"
worker = "*"
