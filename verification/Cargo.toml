[package]
name = "espresso-node"
version = "0.1.0"
edition = "2021"
publish = false

[dependencies]
alloy = { version = "*", default-features = false }
anyhow = "1"
async-broadcast = "0.7"
async-lock = "3"
bincode = "1"
clap = { version = "4", features = ["derive", "env"] }
futures = "0.3"
serde = "1"
tokio = { version = "1", features = ["rt", "macros"] }
tracing = "0.1"
url = "2"
