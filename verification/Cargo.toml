[package]
name = "engai"
version = "0.1.0"
edition = "2021"
publish = false

[dependencies]
gray_matter = "=0.2.9"
chrono = { version = "=0.4.45", features = ["serde"] }
dirs = "=5.0.1"
anyhow = "=1.0.104"
serde = { version = "=1.0.229", features = ["derive"] }
serde_json = "=1.0.154"
toml = "=0.8.23"
tokio = { version = "=1.54.1", features = ["full"] }
sqlx = { version = "=0.8.6", default-features = false, features = ["sqlite", "runtime-tokio", "chrono", "derive", "macros"] }
clap = { version = "=4.6.7", features = ["derive"] }
axum = { version = "=0.8.9", features = ["ws"] }
async-trait = "=0.1.92"
tracing = "=0.1.44"
tracing-subscriber = "=0.3.23"
