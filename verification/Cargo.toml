[package]
name = "moviebot"
version = "0.1.0"
edition = "2021"
publish = false

[dependencies]
anyhow = "=1.0.104"
async-trait = "=0.1.92"
chrono = "=0.4.45"
dptree = "=0.5.1"
reqwest = { version = "=0.12.28", default-features = false, features = ["json"] }
serde = { version = "=1.0.229", features = ["derive"] }
serde_json = "=1.0.151"
sqlx = { version = "=0.7.4", default-features = false, features = ["runtime-tokio-rustls", "postgres", "rust_decimal"] }
takecell = "=0.1.1"
teloxide = { version = "=0.17.0", features = ["macros", "webhooks-axum"] }
thiserror = "=2.0.21"
