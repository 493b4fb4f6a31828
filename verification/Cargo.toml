[package]
name = "apdu_dispatch"
version = "0.1.0"
edition = "2021"
publish = false

[dev-dependencies]
iso7816 = "*"
