[package]
name = "market_analytics"
version = "0.1.0"
edition = "2021"
publish = false

[dependencies]
chrono = "0.4"
reqwest = { version = "0.12", default-features = false, features = ["blocking", "rustls-tls"] }
scraper = "*"
tokio = { version = "1", features = ["macros", "rt-multi-thread"] }
yahoo_finance_api = "*"
