[package]
name = "orchestrator"
version = "0.1.0"
edition = "2021"
publish = false

[dependencies]
async-trait = "0.1"
axum = "0.7"
base64 = "0.22"
chrono = { version = "0.4", features = ["serde"] }
reqwest = { version = "0.12", default-features = false, features = ["json"] }
serde = { version = "1", features = ["derive"] }
serde_json = "1"
sqlx = { version = "0.8", default-features = false, features = ["runtime-tokio", "sqlite", "macros", "chrono", "uuid"] }
strum = "0.26"
strum_macros = "0.26"
thiserror = "1"
tokio = { version = "1", features = ["process"] }
ts-rs = { version = "*", features = ["chrono-impl", "uuid-impl"] }
uuid = { version = "1", features = ["v4", "v7", "serde"] }
