[package]
name = "anaf"
version = "0.1.0"
edition = "2021"
publish = false

[dependencies]
reqwest = { version = "*", default-features = false, features = ["json"] }
serde = { version = "*", features = ["derive"] }
serde_json = { version = "*", features = ["preserve_order"] }
chrono = { version = "*", features = ["serde"] }
tracing = "*"
anyhow = "*"
thiserror = "*"
