[package]
name = "mini_s3"
version = "0.1.0"
edition = "2021"
publish = false

[dependencies]
md5 = "0.7"
uuid = { version = "1", features = ["v4"] }
chrono = "0.4"
axum = "0.8"
tokio = { version = "1", features = ["macros", "rt-multi-thread", "fs", "net"] }
sqlx = { version = "0.8", default-features = false, features = ["runtime-tokio", "sqlite", "derive"] }
serde = { version = "1", features = ["derive"] }
async-trait = "0.1"
tracing = "0.1"
tracing-subscriber = { version = "0.3", features = ["env-filter", "fmt"] }
dotenv = "0.15"
