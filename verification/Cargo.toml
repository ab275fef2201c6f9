[package]
name = "rate_limiter"
version = "0.1.0"
edition = "2021"
publish = false

[dependencies]
chrono = "0.4"
evmap = "10"
priority-queue = "1"
axum = { version = "0.6", features = ["headers"] }
tokio = { version = "1", features = ["rt-multi-thread", "macros", "time"] }
parking_lot = "0.12"
serde = { version = "1", features = ["derive"] }
envy = "0.4"
dotenv = "0.15"
env_logger = "0.10"
log = "0.4"
