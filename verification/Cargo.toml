[package]
name = "namada_poc"
version = "0.1.0"
edition = "2021"
publish = false

[dependencies]
clap = { version = "4", features = ["derive", "env"] }
dotenvy = "0.15"
tendermint = "0.40"
tendermint-rpc = { version = "0.40", features = ["http-client"] }
tokio = { version = "1", features = ["full"] }
