[package]
name = "employee_hub"
version = "0.1.0"
edition = "2021"
publish = false

[dependencies]
serde = { version = "=1.0.229", features = ["derive"] }
serde_json = { version = "=1.0.154", features = ["raw_value"] }
csv = "=1.4.0"
moka = { version = "=0.12.16", features = ["sync"] }
lettre = { version = "=0.11.23", default-features = false, features = ["builder"] }
jsonwebtoken = "=9.3.1"
axum = { version = "=0.7.9", features = ["multipart"] }
tokio = { version = "=1.54.1", features = ["full"] }
sqlx = { version = "=0.8.6", default-features = false, features = ["runtime-tokio", "sqlite", "derive"] }
reqwest = { version = "=0.12.28", default-features = false, features = ["json", "rustls-tls"] }
tower-http = { version = "=0.5.2", features = ["cors", "trace"] }
utoipa = { version = "=4.2.3", features = ["axum_extras"] }
utoipa-swagger-ui = { version = "=7.1.0", features = ["axum", "vendored"] }
tracing = "=0.1.44"
tracing-subscriber = "=0.3.23"
dotenvy = "=0.15.7"
envconfig = "=0.10.0"
async-trait = "=0.1.92"
thiserror = "=1.0.69"
