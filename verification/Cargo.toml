[package]
name = "sealed_bid_auction"
version = "0.1.0"
edition = "2021"
publish = false

[dependencies]
anchor-lang = { version = "=0.32.2", features = ["init-if-needed"] }
arcium-anchor = { version = "=0.9.7", default-features = false }
arcium-client = { version = "=0.9.7", default-features = false }
