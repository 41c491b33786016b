[package]
name = "aios_surreal"
version = "0.1.0"
edition = "2021"
publish = false

[dependencies]
anyhow = "=1.0.104"
cached = { version = "=4.1.0", default-features = false, features = ["time_stores"] }
chrono = { version = "=0.4.45", default-features = false, features = ["clock", "std"] }
dashmap = "=6.2.1"
indexmap = "=2.14.2"
log = "=0.4.35"
once_cell = "=1.21.4"
parking_lot = "=0.12.5"
serde = { version = "=1.0.229", features = ["derive"] }
serde_json = "=1.0.154"
tokio = { version = "=1.54.1", features = ["sync", "time", "rt", "macros"] }
surrealdb = { version = "=3.3.5", default-features = false, features = ["protocol-ws"] }
uuid = { version = "=1.29.0", features = ["v4"] }
