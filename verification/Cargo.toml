[package]
name = "jrpc_types"
version = "0.1.0"
edition = "2021"
publish = false

[dependencies]
serde = "1"
serde_json = { version = "1", features = ["preserve_order"] }
thiserror = "1"
