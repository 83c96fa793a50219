[package]
name = "sni_proxy"
version = "0.1.0"
edition = "2021"
publish = false

[dependencies]
anyhow = "*"
argh = "*"
tokio = { version = "*", features = ["net", "io-util", "rt-multi-thread", "macros"] }
tracing = "*"
tracing-subscriber = "*"
