[package]
name = "cliverge"
version = "0.1.0"
edition = "2021"
publish = false

[dependencies]
serde_json = "1"
chrono = "0.4"
serde = { version = "1", features = ["derive"] }
tokio = { version = "1", features = ["macros", "rt-multi-thread", "process", "fs", "io-util", "sync", "time"] }
clap = { version = "4", features = ["derive"] }
dirs = "5"
colored = "2"
anyhow = "1"
thiserror = "1"
async-trait = "0.1"
