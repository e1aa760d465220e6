[package]
name = "ops"
version = "0.1.0"
edition = "2021"
publish = false

[dependencies]
prometheus = "=0.14.0"
hyper = { version = "=0.14.32", features = ["http1", "server", "tcp"] }
serde = "=1.0.229"
serde_json = "=1.0.151"
trillium = "=0.2.20"
trillium-router = "=0.3.6"
