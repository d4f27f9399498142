[package]
name = "isracard_payment"
version = "0.1.0"
edition = "2021"
publish = false

[dependencies]
dotenvy = "=0.15.7"
dptree = "=0.5.1"
lambda_http = "=1.3.2"
log = "=0.4.35"
pretty_env_logger = "=0.5.0"
reqwest = { version = "=0.12.28", default-features = false, features = ["json", "rustls-tls"] }
serde = { version = "=1.0.229", features = ["derive"] }
serde_json = "=1.0.154"
takecell = ">=0.1.0, <0.1.2"
teloxide = { version = "=0.17.0", default-features = false, features = ["ctrlc_handler", "rustls"] }
tokio = { version = "=1.54.1", features = ["macros", "rt-multi-thread", "sync"] }
