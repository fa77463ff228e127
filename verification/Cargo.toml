[package]
name = "openmicc"
version = "0.1.0"
edition = "2021"
publish = false

[dependencies]
actix = "0.13"
actix-web = "4"
actix-web-actors = "4"
anyhow = "1"
clap = { version = "4", default-features = false, features = ["std", "derive", "env", "help", "usage"] }
env_logger = { version = "0.10", default-features = false }
futures = "0.3"
hex = { version = "0.4", features = ["serde"] }
mediasoup = "*"
rand = "0.8"
redis = { version = "0.22", default-features = false, features = ["tokio-comp"] }
rustyline = "10"
serde = { version = "1", features = ["derive"] }
serde_json = "1"
strum = { version = "0.24", features = ["derive"] }
tokio = { version = "1", features = ["rt-multi-thread", "macros", "sync"] }
tracing = "0.1"
tracing-actix = "*"
tracing-subscriber = "0.3"
websocket = { version = "0.26", default-features = false, features = ["sync"] }
