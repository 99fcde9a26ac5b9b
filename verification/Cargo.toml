[package]
name = "clotho"
version = "0.1.0"
edition = "2021"
publish = false

[dependencies]
uuid = { version = "1", features = ["v4"] }
serde = { version = "1", features = ["derive"] }
serde_json = "1"
toml = "*"
chrono = "*"
rusqlite = { version = "*", features = ["bundled"] }
git2 = "*"
thiserror = "*"
anyhow = "1"
