[package]
name = "graphboard"
version = "0.1.0"
edition = "2021"
publish = false

[dependencies]
postgres-protocol = "0.6"
tokio-postgres = { version = "0.7", features = ["with-chrono-0_4", "with-serde_json-1"] }
serde_json = "1"
chrono = { version = "0.4", features = ["serde"] }
serde = { version = "1", features = ["derive"] }
deadpool-postgres = { version = "0.10", features = ["serde"] }
actix-web = { version = "4", default-features = false, features = ["macros"] }
serde_qs = "0.8"
config = { version = "0.11", default-features = false }
derive_more = "0.99"
tracing = "0.1"
tracing-actix-web = "0.5"
tracing-bunyan-formatter = "0.3"
tracing-subscriber = { version = "0.3", features = ["env-filter"] }
