[package]
name = "server"
version = "0.1.0"
edition = "2021"
publish = false

[dependencies]
regex = "1"
rand = "0.8"
axum = "0.7"
tokio = { version = "1", features = ["macros", "rt", "net", "fs", "io-util"] }
serde = { version = "1", features = ["derive"] }
serde_json = "1"
chrono = "0.4"
uuid = { version = "1", features = ["v4"] }
csv = "1"
anyhow = "1"
dotenvy = "0.15"
once_cell = "1"
sea-orm = { version = "1", default-features = false, features = ["macros", "with-json", "with-chrono"] }
neo4rs = "0.8"
meilisearch-sdk = "0.33"
tower-http = { version = "0.5", features = ["cors"] }
utoipa = { version = "4", features = ["axum_extras"] }
