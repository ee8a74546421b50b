[package]
name = "dbtransfer"
version = "0.1.0"
edition = "2021"
publish = false

[dependencies]
serde_json = "1"
csv = "1"
anyhow = "1"
clap = { version = "4", features = ["derive"] }
tokio = { version = "1", features = ["macros", "rt-multi-thread", "fs", "io-util"] }
