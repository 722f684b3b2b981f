[package]
name = "jsonrpc_response"
version = "0.1.0"
edition = "2021"
publish = false

[dependencies]
anyhow = "1"
http = "0.2"
hyper = "0.14"
serde = "1"
serde_json = "1"
