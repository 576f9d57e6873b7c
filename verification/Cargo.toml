[package]
name = "tokenization"
version = "0.1.0"
edition = "2021"
publish = false

[dependencies]
tokenizers = "*"
async-channel = "*"
tokio = { version = "*", features = ["sync"] }
tracing = "*"
metrics = "*"
