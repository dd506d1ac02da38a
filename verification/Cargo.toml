[package]
name = "devperf"
version = "0.1.0"
edition = "2021"
publish = false

[dependencies]
chrono = "=0.4.45"
wildmatch = "=2.7.0"
octocrab = "=0.41.2"
reqwest = { version = "=0.12.28", default-features = false, features = ["json", "rustls-tls"] }
reqwest-middleware = "=0.4.2"
http-cache-reqwest = "=0.16.0"
confy = "=2.0.0"
serde = { version = "=1.0.229", features = ["derive"] }
serde_json = "=1.0.154"
tokio = { version = "=1.54.1", features = ["macros", "rt-multi-thread"] }
clap = { version = "=4.6.7", features = ["derive"] }
anyhow = "=1.0.104"
log = "=0.4.35"
futures = "=0.3.34"
