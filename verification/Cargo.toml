[package]
name = "mirakc"
version = "0.1.0"
edition = "2021"
publish = false

[dependencies]
actix = "0.13"
cfg-if = "1"
chrono = "=0.4.45"
futures = "0.3"
humantime = "2"
indexmap = "=2.14.2"
log = "0.4"
mustache = "=0.9.0"
serde = { version = "1", features = ["derive"] }
serde_json = "1"
shell-words = "1"
tokio = { version = "1", features = ["io-util", "process", "rt", "sync"] }
