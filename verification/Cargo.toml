[package]
name = "schedule_bot"
version = "0.1.0"
edition = "2021"
publish = false

[dependencies]
scraper = "=0.23.1"
xxhash-rust = { version = "=0.8.19", features = ["const_xxh3"] }
chrono = { version = "=0.4.45", default-features = false, features = ["clock"] }
serde = { version = "=1.0.229", features = ["derive"] }
serde_json = "=1.0.154"
teloxide = { version = "=0.15.0", default-features = false, features = ["macros", "ctrlc_handler", "rustls"] }
takecell = "=0.1.1"
sqlx = { version = "=0.8.6", default-features = false, features = ["runtime-tokio", "postgres", "json"] }
reqwest = { version = "=0.12.28", default-features = false, features = ["rustls-tls"] }
tokio = { version = "=1.54.1", features = ["macros", "rt-multi-thread", "time"] }
log = "=0.4.35"
pretty_env_logger = "=0.5.0"
dotenv = "=0.15.0"
