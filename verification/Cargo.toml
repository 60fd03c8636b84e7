[package]
name = "notify_push"
version = "0.1.0"
edition = "2021"
publish = false

[dependencies]
ahash = "=0.8.12"
color-eyre = "0.6"
dashmap = "=6.2.1"
dotenv = "0.15"
flexi_logger = "=0.31.10"
futures = "0.3"
log = "0.4"
nextcloud-config-parser = { version = "=0.15.4", default-features = false }
rand = { version = "=0.8.8", features = ["small_rng"] }
redis = { version = "=0.27.6", default-features = false, features = ["tokio-comp", "aio", "cluster-async", "tokio-rustls-comp", "tls-rustls-insecure"] }
reqwest = { version = "=0.12.28", default-features = false, features = ["rustls-tls"] }
serde = { version = "1", features = ["derive"] }
serde_json = "=1.0.154"
smallvec = { version = "=1.16.4", features = ["serde"] }
sqlx = { version = "=0.8.6", default-features = false, features = ["any", "runtime-tokio", "sqlite", "mysql", "postgres"] }
structopt = "0.3"
thiserror = "1"
tokio = { version = "=1.54.1", features = ["macros", "rt-multi-thread", "signal", "sync", "time", "net"] }
tokio-stream = { version = "0.1", features = ["net"] }
warp = { version = "=0.3.7", features = ["tls"] }
warp-real-ip = "0.2"
