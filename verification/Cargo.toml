[package]
name = "midgard_ingest"
version = "0.1.0"
edition = "2021"
publish = false

[dependencies]
serde_json = "*"
serde = { version = "*", features = ["derive"] }
sqlx = { version = "*", default-features = false, features = ["postgres", "runtime-tokio", "bigdecimal"] }
axum = { version = "*", default-features = false, features = ["http1", "tokio", "json", "query"] }
reqwest = { version = "*", default-features = false }
tokio = { version = "*", features = ["rt-multi-thread", "macros", "net"] }
dotenv = "*"
bigdecimal = "*"
