[package]
name = "dodo_bot"
version = "0.1.0"
edition = "2021"
publish = false

[dependencies]
chrono = "=0.4.45"
rand = "=0.10.3"
frankenstein = { version = "=0.52.1", features = ["client-reqwest"] }
tokio = { version = "=1.53.2", features = ["macros", "rt-multi-thread"] }
config = "=0.15.27"
serde = { version = "=1.0.229", features = ["derive"] }
serde_json = "=1.0.151"
