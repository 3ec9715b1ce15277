[package]
name = "webserver_rs"
version = "0.1.0"
edition = "2021"
publish = false

[dependencies]
salvo = { version = "=0.60.0", features = ["jwt-auth", "cors", "serve-static"] }
serde = { version = "=1.0.229", features = ["derive"] }
serde_json = { version = "=1.0.154", features = ["preserve_order", "raw_value"] }
time = { version = "=0.3.55", features = ["macros", "formatting"] }
jsonwebtoken = "=9.3.1"
tokio = { version = "=1.54.1", features = ["full"] }
anyhow = "=1.0.104"
chrono = "=0.4.45"
futures = "=0.3.34"
config-file = "=0.2.3"
tracing = "=0.1.44"
tracing-appender = "=0.2.5"
tracing-subscriber = { version = "=0.3.23", features = ["time", "fmt"] }
sea-orm = { version = "=0.12.15", default-features = false }
