[package]
name = "evermemos-rs"
version = "0.1.0"
edition = "2021"
publish = false

[dependencies]
jieba-rs = "=0.11.0"
serde = { version = "=1.0.229", features = ["derive"] }
serde_json = "=1.0.154"
serde_urlencoded = "=0.7.1"
reqwest = { version = "=0.12.28", default-features = false, features = ["json", "rustls-tls"] }
tokio = { version = "=1.54.1", features = ["rt-multi-thread", "macros", "io-std", "io-util", "sync", "fs", "time", "net"] }
async-openai = "=0.27.2"
async-trait = "=0.1.92"
anyhow = "=1.0.104"
chrono = { version = "=0.4.45", features = ["serde"] }
uuid = { version = "=1.29.0", features = ["v4"] }
once_cell = "=1.21.4"
thiserror = "=2.0.21"
dotenvy = "=0.15.7"
moka = { version = "=0.12.16", features = ["future"] }
config = { version = "0.14", default-features = false, features = ["toml"] }
