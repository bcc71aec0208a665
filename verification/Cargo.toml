[package]
name = "zero2prod"
version = "0.1.0"
edition = "2021"
publish = false

[dependencies]
base64 = "0.13"
argon2 = "0.5"
uuid = "1"
serde = { version = "1", features = ["derive"] }
actix-web = "4"
sqlx = { version = "0.8", default-features = false, features = ["runtime-tokio", "postgres"] }
reqwest = { version = "0.12", default-features = false, features = ["json"] }
anyhow = "1"
thiserror = "1"
tracing = "0.1"
