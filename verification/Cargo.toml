[package]
name = "doc_service"
version = "0.1.0"
edition = "2021"
publish = false

[dependencies]
uuid = { version = "1", features = ["v7"] }
chrono = { version = "0.4", default-features = false, features = ["clock", "std", "serde"] }
serde = { version = "1", features = ["derive"] }
serde_json = "1"
axum = "0.8"
sea-orm = { version = "1", default-features = false, features = ["macros", "with-chrono", "with-uuid", "with-json", "sqlx-postgres", "runtime-tokio-rustls"] }
sea-orm-migration = { version = "1", default-features = false, features = ["sqlx-postgres", "runtime-tokio-rustls"] }
async-trait = "0.1"
tracing = "0.1"
