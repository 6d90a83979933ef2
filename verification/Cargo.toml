[package]
name = "apalis-postgres"
version = "1.0.0"
edition = "2021"
publish = false

[dependencies]
apalis-codec = { version = "=0.1.0-rc.9", features = ["json"] }
apalis-core = "=1.0.0-rc.9"
apalis-sql = "=1.0.0-rc.9"
futures = "=0.3.34"
pin-project = "1"
serde = { version = "1", features = ["derive"] }
serde_json = "1"
sqlx = { version = "=0.8.6", default-features = false, features = ["migrate", "postgres", "runtime-tokio"] }
thiserror = "2"
ulid = { version = "=1.2.1", features = ["serde"] }
