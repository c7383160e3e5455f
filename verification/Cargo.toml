[package]
name = "heart_rate_client"
version = "0.1.0"
edition = "2021"
publish = false

[dependencies]
anyhow = "*"
btleplug = "*"
futures = "*"
pretty_env_logger = "*"
tokio = { version = "*", features = ["macros", "rt-multi-thread", "time", "signal"] }
uuid = "*"
