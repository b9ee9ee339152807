[package]
name = "daily_digest"
version = "0.1.0"
edition = "2021"
publish = false

[dependencies]
anyhow = "=1.0.104"
chrono = "=0.4.45"
rig-core = { version = "=0.44.0", features = ["reqwest"] }
serde_json = "=1.0.151"
serenity = "=0.12.5"
sqlx = { version = "=0.7.4", features = ["runtime-tokio-rustls", "postgres", "chrono"] }
tokio = { version = "=1.53.2", features = ["macros", "rt-multi-thread", "time"] }
tracing = "=0.1.44"
