[package]
name = "fenlu"
version = "0.1.0"
edition = "2021"
publish = false

[dependencies]
serde = { version = "1", features = ["derive"] }
serde_json = "1"
globset = "0.4"
fluent-uri = { version = "*", features = ["serde"] }
pico-args = "0.5"
glob = "0.3"
tokio = { version = "1", features = ["rt-multi-thread", "macros", "sync"] }
eyre = "0.6"
mlua = { version = "0.9", features = ["lua54", "vendored", "serialize"] }
sqlx = { version = "0.8", default-features = false, features = ["sqlite", "runtime-tokio", "macros"] }
toml = "0.8"
dashmap = "6"
futures = "0.3"
tracing = "0.1"
tracing-subscriber = "0.3"
