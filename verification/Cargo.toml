[package]
name = "trading_engine"
version = "0.1.0"
edition = "2021"
publish = false

[dependencies]
chrono = "=0.4.45"
tokio = { version = "=1.54.1", features = ["full"] }
mlua = { version = "=0.9.9", features = ["lua54", "vendored", "send"] }
serde = { version = "=1.0.229", features = ["derive"] }
serde_json = "=1.0.154"
thiserror = "=1.0.69"
anyhow = "=1.0.104"
tracing = "=0.1.44"
tracing-subscriber = { version = "=0.3.23", features = ["env-filter"] }
async-trait = "=0.1.92"
futures-util = { version = "=0.3.34", features = ["sink"] }
tokio-tungstenite = "=0.21.0"
url = "=2.5.8"
rand = "=0.8.8"
parking_lot = "=0.12.5"
axum = "=0.7.9"
tower-http = { version = "=0.5.2", features = ["cors", "trace"] }
