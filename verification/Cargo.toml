[package]
name = "graylog_to_grafana"
version = "0.1.0"
edition = "2021"
publish = false

[dependencies]
url = "2"
serde = { version = "1", features = ["derive"] }
serde_json = "1"
structopt = "0.3"
reqwest = { version = "0.11", default-features = false, features = ["blocking", "json"] }
env_logger = "0.10"
log = "0.4"
