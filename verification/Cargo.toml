[package]
name = "stablesats"
version = "0.1.0"
edition = "2021"
publish = false

[dependencies]
anyhow = "1"
chrono = "0.4"
data-encoding = "2"
futures = "0.3"
graphql_client = "*"
reqwest = { version = "0.12", default-features = false, features = ["json"] }
ring = "0.17"
rust_decimal = "1"
serde = { version = "1", features = ["derive"] }
serde_json = "1"
serde_yaml = "0.9"
sqlx = { version = "0.8", default-features = false, features = ["postgres", "rust_decimal", "uuid", "runtime-tokio"] }
sqlx-ledger = "*"
tracing = "0.1"
uuid = "1"
