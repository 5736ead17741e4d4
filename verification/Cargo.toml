[package]
name = "gx_datalinker"
version = "0.1.0"
edition = "2021"
publish = false

[dependencies]
chrono = "=0.4.45"
serde = { version = "=1.0.229", features = ["derive"] }
serde_json = { version = "=1.0.154", features = ["preserve_order"] }
tokio = { version = "=1.54.1", features = ["full"] }
axum = { version = "=0.7.9", features = ["macros", "multipart"] }
reqwest = { version = "=0.12.28", default-features = false, features = ["json", "rustls-tls"] }
tokio-postgres = { version = "=0.7.18", features = ["with-chrono-0_4", "with-uuid-1"] }
sqlx = { version = "=0.7.4", default-features = false, features = ["runtime-tokio", "postgres", "macros"] }
jsonwebtoken = "=9.3.1"
uuid = { version = "=1.29.0", features = ["v4"] }
tower-http = { version = "=0.5.2", features = ["cors", "fs"] }
headers = "=0.4.2"
dotenvy = "=0.15.7"
once_cell = "=1.21.4"
