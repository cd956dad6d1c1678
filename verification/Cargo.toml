[package]
name = "ws_client"
version = "0.1.0"
edition = "2021"
publish = false

[dependencies]
anyhow = "1"
clap = "4"
futures = "0.3"
tendermint-rpc = { version = "*", features = ["websocket-client"] }
tokio = { version = "1", features = ["rt-multi-thread", "macros"] }
