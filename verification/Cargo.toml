[package]
name = "bot_telegram"
version = "0.1.0"
edition = "2021"
publish = false

[dependencies]
teloxide = { version = "=0.13.0", default-features = false, features = ["macros", "ctrlc_handler", "rustls"] }
dptree = "=0.3.0"
tokio = { version = "=1.54.1", features = ["macros", "rt-multi-thread", "time"] }
sqlx = { version = "=0.8.6", default-features = false, features = ["runtime-tokio", "postgres"] }
reqwest = { version = "=0.12.28", default-features = false, features = ["json", "rustls-tls"] }
serde_json = "=1.0.154"
dotenv = "=0.15.0"
log = "=0.4.35"
starknet = { version = "=0.17.0", default-features = false }
takecell = "=0.1.1"
