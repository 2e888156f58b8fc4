[package]
name = "fintrack"
version = "0.1.0"
edition = "2021"
publish = false

[dependencies]
cron = "=0.17.0"
percent-encoding = "=2.3.2"
chrono = "=0.4.45"
rust_decimal = "=1.43.0"
serde = { version = "=1.0.229", features = ["derive"] }
serde_json = "=1.0.151"
reqwest = { version = "=0.13.5", default-features = false, features = ["json", "form"] }
sqlx = { version = "=0.9.0", default-features = false, features = ["runtime-tokio", "postgres", "chrono", "rust_decimal"] }
tokio = { version = "=1.53.2", features = ["rt-multi-thread", "macros", "sync", "time"] }
async-trait = "=0.1.92"
anyhow = "=1.0.104"
log = "=0.4.34"
dotenv = "=0.15.0"
