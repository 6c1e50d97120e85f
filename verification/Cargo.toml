[package]
name = "mcp_binary"
version = "0.1.0"
edition = "2021"
publish = false

[dependencies]
tokio = { version = "1", features = ["rt-multi-thread", "macros", "process", "io-util", "sync"] }
tokio-util = "0.7"
camino = "1"
semver = "1"
