[package]
name = "vault_search"
version = "0.1.0"
edition = "2021"
publish = false

[dependencies]
rusqlite = { version = "0.32", features = ["bundled"] }
walkdir = "2"
serde = { version = "1", features = ["derive"] }
