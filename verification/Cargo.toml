[package]
name = "anker_powerhouse"
version = "0.1.0"
edition = "2021"
publish = false

[dependencies]
axum = "*"
btleplug = "*"
futures = "*"
prometheus = "*"
serde = { version = "1", features = ["derive"] }
thiserror = "*"
tokio = { version = "1", features = ["full"] }
tower-http = { version = "*", features = ["cors", "fs"] }
tracing = "0.1"
tracing-subscriber = { version = "0.3", features = ["env-filter"] }
utoipa = { version = "*", features = ["axum_extras"] }
utoipa-swagger-ui = { version = "*", features = ["axum"] }
uuid = "1"
