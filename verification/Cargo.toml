[package]
name = "fiat_checkout_manager"
version = "0.1.0"
edition = "2021"
publish = false

[dependencies]
borsh = { version = "=1.8.1", features = ["derive"] }
eyre = "*"
dotenv = "*"
tracing = "*"
tracing-subscriber = "*"
lapin = "=4.12.0"
tokio = { version = "=1.53.2", features = ["macros", "rt-multi-thread", "time"] }
redis = "=1.7.1"
futures = "=0.3.34"
