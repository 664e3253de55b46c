[package]
name = "casino-backend"
version = "0.1.0"
edition = "2021"
publish = false

[dependencies]
rand = "0.8"
rand_core = { version = "0.6", features = ["getrandom"] }
argon2 = "0.5"
actix-web = { version = "4", default-features = false, features = ["macros"] }
actix-files = "0.6"
anyhow = "1"
async-trait = "0.1"
chrono = { version = "0.4", features = ["serde"] }
dotenvy = "0.15"
jsonwebtoken = "9"
rpassword = "7"
serde = { version = "1", features = ["derive"] }
serde_json = "1"
sqlx = { version = "0.8", default-features = false, features = ["runtime-tokio", "sqlite", "chrono", "migrate", "macros", "derive"] }
thiserror = "1"
tracing = "0.1"
tracing-subscriber = { version = "0.3", features = ["env-filter"] }
