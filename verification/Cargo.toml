[package]
name = "palpites"
version = "0.1.0"
edition = "2021"
publish = false

[dependencies]
async-trait = "0.1"
axum = "0.7"
chrono = "0.4"
serde = { version = "1", features = ["derive"] }
serde_json = "1"
sha2 = "0.10"
sqlx = { version = "0.7", default-features = false, features = ["mysql", "runtime-tokio"] }
tower-http = { version = "0.5", features = ["cors", "trace"] }
tracing = "0.1"
uuid = { version = "1", features = ["v4"] }
