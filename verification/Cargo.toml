[package]
name = "the_axum"
version = "0.1.0"
edition = "2021"
publish = false

[dependencies]
base64 = "0.22"
http = "1"
jsonwebtoken = "9"
serde_json = "1"
axum = "0.7"
tokio = { version = "1", features = ["full"] }
serde = { version = "1", features = ["derive"] }
serde_yaml = "0.9"
schemars = "0.8"
validator = { version = "0.18", features = ["derive"] }
reqwest = { version = "0.12", default-features = false, features = ["json"] }
tower = "0.4"
tower-http = { version = "0.5", features = ["compression-gzip", "decompression-gzip", "cors", "trace"] }
tracing = "0.1"
tracing-subscriber = { version = "0.3", features = ["env-filter"] }
clap = { version = "4", features = ["derive", "env"] }
dotenv = "0.15"
anyhow = "1"
thiserror = "1"
derivative = "2"
futures = "0.3"
http-body-util = "0.1"
pin-project-lite = "0.2"
