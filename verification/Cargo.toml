[package]
name = "clift"
version = "0.1.0"
edition = "2021"
publish = false

[dependencies]
clap = "4"
ignore = "0.4"
reqwest = { version = "0.12", default-features = false, features = ["json"] }
serde = { version = "1", features = ["derive"] }
serde_json = "1"
sha2 = "0.10"
thiserror = "1"
tokio = { version = "1", features = ["rt-multi-thread", "fs", "io-util"] }
url = "2"
