[package]
name = "curve_launchpad"
version = "0.1.0"
edition = "2021"
publish = false

[dependencies]
anchor-lang = { version = "0.29.0", features = ["event-cpi"] }
anchor-spl = { version = "0.29.0", default-features = false, features = ["token", "associated_token"] }
