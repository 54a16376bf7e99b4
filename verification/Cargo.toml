[package]
name = "dayz_monitor"
version = "0.1.0"
edition = "2021"
publish = false

[dependencies]
a2s = { version = "=0.6.1", features = ["async"] }
dotenv = "*"
eyre = "*"
poise = "0.6"
serde = { version = "*", features = ["derive"] }
serde-env = "*"
serenity = "0.12"
thiserror = "*"
tokio = { version = "*", features = ["macros", "rt-multi-thread", "sync", "time"] }
tracing = "*"
tracing-subscriber = { version = "*", features = ["env-filter"] }
