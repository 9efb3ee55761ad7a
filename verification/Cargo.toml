[package]
name = "flowstate"
version = "0.1.0"
edition = "2021"
publish = false

[dependencies]
regex = "*"
reqwest = { version = "*", default-features = false, features = ["blocking"] }
serde = { version = "*", features = ["derive"] }
serde_yaml = "*"
thiserror = "*"
tracing = "*"
tracing-subscriber = "*"
