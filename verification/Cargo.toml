[package]
name = "todo_backend"
version = "0.1.0"
edition = "2021"
publish = false

[dependencies]
sqlx = { version = "0.8", default-features = false, features = ["sqlite", "runtime-tokio", "macros", "migrate"] }
validator = { version = "*", features = ["derive"] }
argon2 = "*"
thiserror = "*"
tokio = { version = "1", features = ["sync", "macros", "rt-multi-thread"] }
serde = { version = "1", features = ["derive"] }
figment = { version = "0.10", features = ["toml", "env"] }
dotenvy = "0.15"
color-eyre = "0.6"
tracing = "0.1"
async-trait = "0.1"
