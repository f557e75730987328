[package]
name = "undertone"
version = "0.1.0"
edition = "2021"
publish = false

[dependencies]
serde = { version = "1", features = ["derive"] }
serde_json = "1"
rusb = "0.9"
rusqlite = { version = "0.32", features = ["bundled"] }
directories = "5"
thiserror = "2"
tokio = { version = "1", features = ["sync"] }
