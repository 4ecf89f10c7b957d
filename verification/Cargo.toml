[package]
name = "inevents"
version = "0.1.0"
edition = "2021"
publish = false

[dependencies]
serde = { version = "=1.0.229", features = ["derive"] }
serde_json = "=1.0.154"
semver = "=1.0.28"
near-account-id = "=1.1.4"
chrono = { version = "=0.4.45", default-features = false, features = ["std"] }
url = "=2.5.8"
tokio = { version = "=1.54.1", features = ["rt-multi-thread", "macros", "time", "net", "sync", "signal"] }
tokio-tungstenite = "=0.21.0"
futures-util = "=0.3.34"
redis = { version = "=0.25.5", features = ["tokio-comp", "streams", "connection-manager"] }
anyhow = "=1.0.104"
actix = "=0.13.5"
actix-web = { version = "=4.18.1", default-features = false, features = ["macros", "ws", "rustls-0_22"] }
rustls = "0.22"
rustls-pemfile = "2"
actix-cors = "=0.7.2"
tokio-util = "=0.7.20"
actix-web-actors = "=4.3.1"
sqlx = { version = "=0.8.6", default-features = false, features = ["runtime-tokio", "postgres", "chrono", "bigdecimal", "json"] }
bigdecimal = "=0.4.11"
