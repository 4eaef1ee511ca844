[package]
name = "activity_reconcile"
version = "0.1.0"
edition = "2021"
publish = false

[dependencies]
anyhow = "=1.0.104"
futures-concurrency = "=7.7.1"
heck = "=0.5.0"
serde = { version = "=1.0.229", features = ["derive"] }
serde_json = "=1.0.154"
ulid = "=1.2.1"
wasip2 = "=1.0.4"
wstd = "=0.6.8"
