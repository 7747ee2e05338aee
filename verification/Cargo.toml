[package]
name = "claans_api"
version = "0.1.0"
edition = "2021"
publish = false

[dependencies]
validator = "*"
rand = "0.8"
anyhow = "1"
chrono = { version = "0.4", features = ["serde"] }
serde = { version = "1", features = ["derive"] }
serde_json = "1"
thiserror = "1"
uuid = { version = "1", features = ["v4", "serde"] }
actix-web = "4"
sqlx = { version = "0.7", default-features = false, features = ["runtime-tokio", "postgres", "uuid", "chrono"] }
reqwest = { version = "0.11", default-features = false, features = ["json", "rustls-tls"] }
tokio = { version = "1", features = ["macros", "rt-multi-thread"] }
tracing = "0.1"
secrecy = "0.8"
diesel = { version = "2", features = ["postgres", "chrono"] }
rocket = { version = "0.5", features = ["json"] }
