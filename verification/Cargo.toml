[package]
name = "rs_trainz"
version = "0.1.0"
edition = "2021"
publish = false

[dependencies]
serde = { version = "=1.0.229", features = ["derive"] }
serde_json = "=1.0.151"
tokio = { version = "=1.53.2", features = ["rt-multi-thread", "macros", "sync", "time", "net"] }
axum = "=0.8.9"
tower-http = { version = "=0.7.1", features = ["cors"] }
rumqttc = { version = "=0.25.1", default-features = false }
