[package]
name = "grafana_migrate"
version = "0.1.0"
edition = "2021"
publish = false

[dependencies]
log = "=0.4.34"
log4rs = "=1.4.0"
reqwest = { version = "=0.12.28", features = ["json"] }
serde = { version = "=1.0.229", features = ["derive"] }
serde_json = "=1.0.154"
serde_yaml = "=0.9.34"
tokio = { version = "=1.54.1", features = ["macros", "rt-multi-thread"] }
