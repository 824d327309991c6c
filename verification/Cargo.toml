[package]
name = "xelis_rpc"
version = "0.1.0"
edition = "2021"
publish = false

[dependencies]
serde = "1"
serde_json = "1"
tokio = { version = "1", features = ["rt-multi-thread", "macros", "sync"] }
