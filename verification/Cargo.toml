[package]
name = "markreply"
version = "0.1.0"
edition = "2021"
publish = false

[dependencies]
ammonia = "4"
axum = "0.8"
chrono = "0.4"
pulldown-cmark = "*"
serde = { version = "1", features = ["derive"] }
sqlx = { version = "0.8", default-features = false, features = ["runtime-tokio", "sqlite", "chrono", "macros"] }
tokio = { version = "1", features = ["rt", "rt-multi-thread", "macros"] }
tracing = "0.1"
uuid = { version = "1", features = ["v4"] }
