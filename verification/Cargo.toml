[package]
name = "httpbench"
version = "0.1.0"
edition = "2021"
publish = false

[dependencies]
chrono = "*"
reqwest = { version = "*", default-features = false }
tokio = { version = "*", features = ["rt-multi-thread", "macros", "process", "time"] }
serde = { version = "*", features = ["derive"] }
serde_json = "*"
bytes = "*"
thiserror = "*"
