[package]
name = "tracing-sqlite"
version = "0.1.0"
edition = "2021"
publish = false

[dependencies]
rusqlite = { version = "*", features = ["time"] }
serde_json = "1"
time = "0.3"
tracing = "0.1"
tracing-log = "0.2"
tracing-subscriber = { version = "0.3", default-features = false, features = ["std"] }
