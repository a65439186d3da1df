[package]
name = "vm_agent"
version = "0.1.0"
edition = "2021"
publish = false

[dependencies]
serde_json = "=1.0.154"
sha2 = "=0.10.9"
openssl = "=0.10.82"
rusqlite = "=0.31.0"
tokio = { version = "=1.54.1", features = ["rt-multi-thread", "macros", "signal", "time", "sync"] }
tokio-util = { version = "=0.7.20", features = ["rt"] }
tracing = "=0.1.44"
tracing-subscriber = { version = "=0.3.23", features = ["json", "fmt"] }
tracing-appender = "=0.2.5"
anyhow = "=1.0.104"
ulid = "=1.2.1"
tonic = "0.12"
tonic-health = "0.12"
