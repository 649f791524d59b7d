[package]
name = "ripvid"
version = "0.1.0"
edition = "2021"
publish = false

[dependencies]
dirs = "=5.0.1"
hex = "=0.4.3"
regex = "=1.13.1"
reqwest = { version = "=0.12.28", default-features = false, features = ["json", "rustls-tls"] }
serde = { version = "=1.0.229", features = ["derive"] }
serde_json = "=1.0.154"
sha2 = "=0.10.9"
thiserror = "=1.0.69"
tokio = { version = "=1.54.1", features = ["sync", "time", "rt", "rt-multi-thread", "process", "io-util", "io-std", "macros"] }
tracing = "=0.1.44"
tracing-appender = "=0.2.5"
tracing-subscriber = { version = "=0.3.23", features = ["env-filter", "json"] }
trash = "5"
url = "=2.5.8"
uuid = { version = "=1.29.0", features = ["v4"] }
zip = { version = "=0.6.6", default-features = false, features = ["deflate"] }
