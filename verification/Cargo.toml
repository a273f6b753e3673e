[package]
name = "cats"
version = "0.1.1"
edition = "2021"
publish = false

[dependencies]
anyhow = "1"
clap = "4"
edit-distance = "2"
regex = "1"
serde = { version = "1", features = ["derive"] }
serde_json = "1"
thiserror = "1"
tokio = { version = "1", features = ["macros", "rt-multi-thread", "process", "time"] }
toml = "0.8"
tracing = "0.1"
walkdir = "2"
