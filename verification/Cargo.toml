[package]
name = "foxholewarbot"
version = "0.1.0"
edition = "2021"
publish = false

[dependencies]
ab_glyph = "=0.2.32"
chrono = "=0.4.45"
chrono-tz = "=0.10.4"
clap = { version = "=4.6.7", features = ["derive"] }
croner = "=3.0.1"
dotenv = "=0.15.0"
env_filter = "=2.0.0"
env_logger = "=0.11.11"
fern = { version = "=0.7.1", features = ["date-based"] }
image = { version = "=0.25.10", default-features = false, features = ["png", "tga"] }
imageproc = { version = "=0.27.0", default-features = false }
log = "=0.4.35"
poise = "=0.7.1"
reqwest = { version = "=0.12.28", default-features = false, features = ["json", "rustls-tls"] }
serde = { version = "=1.0.229", features = ["derive"] }
serde_json = "=1.0.154"
sqlx = { version = "=0.9.0", default-features = false, features = ["runtime-tokio", "postgres", "macros"] }
thiserror = "=2.0.21"
tokio = { version = "=1.54.1", features = ["full"] }
tokio-cron-scheduler = { version = "=0.15.1", features = ["english"] }
uuid = "=1.29.0"
