[package]
name = "ticker_roles"
version = "0.1.0"
edition = "2021"
publish = false

[dependencies]
chrono = "=0.4.45"
chrono-tz = "=0.10.4"
color-eyre = "=0.6.5"
dotenv = "=0.15.0"
serenity = "=0.10.10"
tokio = { version = "=1.54.1", features = ["macros", "rt-multi-thread", "time"] }
yahoo_finance_api = "=2.4.0"
