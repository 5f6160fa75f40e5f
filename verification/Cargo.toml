[package]
name = "northwind"
version = "0.1.0"
edition = "2021"
publish = false

[dependencies]
rocket = { version = "=0.5.2", features = ["json"] }
rusqlite = { version = "=0.41.1", features = ["bundled"] }
serde = { version = "=1.0.229", features = ["derive"] }
