[package]
name = "assay_core"
version = "0.1.0"
edition = "2021"
publish = false

[dependencies]
chrono = { version = "=0.4.45", features = ["serde"] }
rusqlite = { version = "=0.40.2", features = ["bundled"] }
serde = { version = "=1.0.229", features = ["derive"] }
serde_json = "=1.0.154"
serde_yaml = "=0.9.34"
tauri = { version = "=2.12.5", default-features = false }
toml = { version = "=1.1.8", features = ["preserve_order"] }
uuid = { version = "=1.29.0", features = ["v4", "serde"] }
