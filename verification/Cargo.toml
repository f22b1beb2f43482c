[package]
name = "app_core"
version = "0.1.0"
edition = "2021"
publish = false

[dependencies]
anyhow = "=1.0.104"
axum = { version = "=0.8.9", default-features = false, features = ["json", "tokio", "http1"] }
axum-extra = { version = "=0.10.3", default-features = false, features = ["multipart"] }
bollard = "=0.19.4"
config = { version = "=0.15.27", default-features = false, features = ["toml"] }
dotenv = "=0.15.0"
duckduckgo_rs = "=0.0.1"
futures-util = "=0.3.34"
genai = "=0.3.5"
qdrant-client = { version = "=1.20.0", default-features = false, features = ["serde"] }
reqwest = { version = "=0.11.27", default-features = false }
scraper = "=0.29.0"
serde = { version = "=1.0.229", features = ["derive"] }
serde_json = "=1.0.154"
tempfile = "=3.27.0"
text-splitter = "=0.33.0"
tokio = { version = "=1.54.1", features = ["rt-multi-thread", "macros", "process", "fs", "net"] }
tower-http = { version = "=0.6.11", features = ["cors", "trace"] }
uuid = { version = "=1.29.0", features = ["v4"] }
