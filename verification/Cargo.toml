[package]
name = "supermarket_tracker"
version = "0.1.0"
edition = "2021"
publish = false

[dependencies]
dotenvy = "0.15"
error-stack = "0.5"
futures = "0.3"
reqwest = { version = "0.12", default-features = false, features = ["json", "cookies", "rustls-tls"] }
secrecy = "0.8"
serde = { version = "1", features = ["derive"] }
serde_json = "1"
sqlx = { version = "0.8", default-features = false, features = ["runtime-tokio", "tls-rustls", "postgres"] }
tokio = { version = "1", features = ["macros", "rt-multi-thread", "sync", "time"] }
tracing = "0.1"
tracing-subscriber = { version = "0.3", features = ["env-filter", "fmt"] }
