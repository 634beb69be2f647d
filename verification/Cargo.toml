[package]
name = "playlog"
version = "0.1.0"
edition = "2021"
publish = false

[dependencies]
bson = "3.1"
bytes = "1"
reqwest = { version = "*", default-features = false, features = ["json"] }
tokio = { version = "1", features = ["macros", "rt-multi-thread", "net", "signal"] }
axum = { version = "0.8", features = ["macros"] }
axum-extra = { version = "*", features = ["multipart", "query"] }
axum-macros = "*"
mongodb = "*"
sqlx = { version = "0.8", default-features = false, features = ["runtime-tokio", "postgres", "uuid", "chrono"] }
uuid = { version = "1", features = ["serde", "v4"] }
chrono = { version = "0.4", features = ["serde"] }
serde = { version = "1", features = ["derive"] }
thiserror = "2"
anyhow = "1"
tracing = "0.1"
dotenvy = "0.15"
async-trait = "0.1"
futures = "0.3"
validator = { version = "*", features = ["derive"] }
utoipa = { version = "5", features = ["axum_extras", "uuid", "chrono"] }
utoipa-axum = "*"
tower-http = { version = "*", features = ["trace", "timeout", "cors"] }
