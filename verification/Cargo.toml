[package]
name = "hub_bot"
version = "0.1.0"
edition = "2021"
publish = false

[dependencies]
chrono = "=0.4.45"
uuid = { version = "=1.29.0", features = ["v4"] }
poise = "0.6"
tokio = { version = "1", features = ["macros", "rt-multi-thread"] }
sea-orm = { version = "1", features = ["sqlx-postgres", "runtime-tokio-rustls", "macros"] }
dotenv = "0.15"
async-trait = "0.1"
