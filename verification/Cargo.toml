[package]
name = "callsy"
version = "0.1.0"
edition = "2021"
publish = false

[dependencies]
url = "2"
clap = { version = "4", features = ["derive"] }
reqwest = { version = "0.12", default-features = false }
serde = { version = "1", features = ["derive"] }
serde_json = "1"
tokio = { version = "1", features = ["macros", "rt-multi-thread"] }
