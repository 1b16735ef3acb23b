[package]
name = "trader"
version = "0.1.0"
edition = "2021"
publish = false

[dependencies]
anyhow = "=1.0.104"
arrow = { version = "=60.1.0", default-features = false }
async-nats = { version = "=0.51.0", default-features = false, features = ["ring"] }
async-trait = "=0.1.92"
chrono = "=0.4.45"
clap = { version = "=4.6.7", features = ["derive"] }
dotenvy = "=0.15.7"
futures = "=0.3.34"
glob = "=0.3.4"
parquet = { version = "=60.1.0", default-features = false, features = ["arrow", "snap"] }
reqwest = { version = "=0.12.28", default-features = false, features = ["json", "rustls-tls"] }
rustls = "=0.23.46"
serde = { version = "=1.0.229", features = ["derive"] }
serde_json = "=1.0.154"
tokio = { version = "=1.54.1", features = ["macros", "rt-multi-thread", "signal", "sync", "time"] }
tokio-tungstenite = { version = "=0.30.0", features = ["rustls-tls-webpki-roots"] }
toml = "=0.8.23"
