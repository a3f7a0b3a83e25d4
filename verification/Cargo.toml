[package]
name = "search_gateway"
version = "0.1.0"
edition = "2021"
publish = false

[dependencies]
serde_json = "=1.0.154"
hyper = { version = "0.14", features = ["full"] }
tokio = { version = "1", features = ["rt", "macros", "net"] }
clap = { version = "4", features = ["derive"] }
llama-core = { version = "=0.23.4", features = ["search", "logging"] }
endpoints = "=0.20.0"
chat-prompts = "=0.18.1"
either = "1"
log = "0.4"
wasi-logger = "*"
