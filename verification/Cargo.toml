[package]
name = "nil"
version = "0.1.0"
edition = "2021"
publish = false

[dependencies]
anyhow = "1"
async-lsp = "0.0"
lsp-types = "0.94"
serde_json = "1"
tokio = { version = "1", features = ["rt", "fs"] }
tracing = "0.1"
