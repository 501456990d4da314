[package]
name = "wrangler_core"
version = "0.1.0"
edition = "2021"
publish = false

[dependencies]
cloudflare = "0.4"
failure = "0.1"
http = "0.1"
percent-encoding = "1.0"
