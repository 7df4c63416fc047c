[package]
name = "planning_scraper"
version = "0.1.0"
edition = "2021"
publish = false

[dependencies]
anyhow = "1"
aws-config = { version = "1", default-features = false, features = ["default-https-client", "rt-tokio"] }
aws-sdk-s3 = { version = "1", default-features = false, features = ["default-https-client", "rt-tokio"] }
bson = "2"
chrono = { version = "0.4", default-features = false, features = ["std"] }
indicatif = "0.17"
lambda_runtime = { version = "*", default-features = false }
mongodb = { version = "3", default-features = false, features = ["compat-3-0-0", "rustls-tls"] }
rand = "0.8"
reqwest = { version = "0.12", default-features = false, features = ["cookies", "rustls-tls"] }
scraper = "*"
serde_json = "1"
tokio = { version = "1", features = ["macros", "rt-multi-thread"] }
