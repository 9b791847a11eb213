[package]
name = "tinybox"
version = "0.1.0"
edition = "2021"
publish = false

[dependencies]
async-trait = "0.1"
clap = { version = "4", features = ["derive"] }
serde = { version = "1", features = ["derive"] }
serde_json = "1"
thiserror = "2"
tokio = { version = "1", features = ["io-util", "macros", "net", "process", "rt", "time"] }
