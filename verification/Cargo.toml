[package]
name = "voice_admission"
version = "0.1.0"
edition = "2021"
publish = false

[dependencies]
anyhow = "1"
chrono = { version = "0.4", default-features = false, features = ["clock", "std"] }
serde = { version = "1", features = ["derive"] }
serde_json = "1"
sqlx = { version = "0.8", default-features = false, features = ["runtime-tokio", "sqlite"] }
thiserror = "2"
tokio = { version = "1", default-features = false, features = ["sync", "rt", "macros"] }
tokio-util = "0.7"
uuid = { version = "1", features = ["v7"] }
