[package]
name = "windscribe_ephemeral_port"
version = "0.1.0"
edition = "2021"
publish = false

[dependencies]
cookie = "=0.18.2"
reqwest = { version = "=0.13.5", default-features = false, features = ["json", "form", "gzip", "cookies", "native-tls"] }
scraper = "=0.27.0"
serde = { version = "=1.0.229", features = ["derive"] }
serde_json = "=1.0.151"
serde_yaml = "=0.9.34"
shell-words = "=1.1.1"
tokio = { version = "=1.53.2", features = ["rt-multi-thread", "macros", "time", "signal", "sync", "process"] }
