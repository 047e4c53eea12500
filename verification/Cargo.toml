[package]
name = "simple_liquidity_pool"
version = "0.1.0"
edition = "2021"
publish = false

[dependencies]
anchor-lang = { version = "=1.2.1", features = ["init-if-needed"] }
anchor-spl = "=1.2.1"
mpl-token-metadata = "=5.1.1"
