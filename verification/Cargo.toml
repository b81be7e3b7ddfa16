[package]
name = "genos"
version = "0.1.0"
edition = "2021"
publish = false

[dependencies]
regex = "1"
tokio = { version = "1", features = ["fs", "io-util", "macros", "process", "rt-multi-thread", "sync", "time"] }
serde = { version = "1", features = ["derive"] }
serde_yaml = "0.9"
argh = "0.1"
glob = "0.3"
tempfile = "3"
futures = "0.3"
async-trait = "0.1"
anyhow = "1"
