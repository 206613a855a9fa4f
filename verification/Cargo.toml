[package]
name = "velox_ledger"
version = "0.1.0"
edition = "2021"
publish = false

[dependencies]
async-channel = "=2.5.0"
chrono = { version = "=0.4.45", features = ["serde"] }
dotenvy = "0.15"
prost = "=0.13.5"
prost-types = "=0.13.5"
reqwest = { version = "0.12", default-features = false, features = ["json", "rustls-tls"] }
rust_decimal = "=1.43.0"
serde = { version = "1", features = ["derive"] }
serde_json = "=1.0.154"
sqlx = { version = "=0.8.6", default-features = false, features = ["runtime-tokio", "postgres", "uuid", "chrono", "rust_decimal", "json", "derive", "macros", "migrate"] }
tokio = { version = "1", features = ["macros", "rt-multi-thread", "signal", "time"] }
tonic = "=0.12.3"
tracing = "0.1"
tracing-subscriber = { version = "0.3", features = ["env-filter", "json"] }
uuid = { version = "=1.29.0", features = ["v7", "serde"] }
