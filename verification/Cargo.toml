[package]
name = "bookstore"
version = "0.1.0"
edition = "2021"
publish = false

[dependencies]
axum = "0.8"
dotenv = "0.15"
futures = "0.3"
mongodb = "3"
serde = { version = "1", features = ["derive"] }
serde_json = "1"
tokio = { version = "1", features = ["macros", "rt-multi-thread", "net"] }
tower-http = { version = "0.6", features = ["trace"] }
tracing-subscriber = "0.3"
