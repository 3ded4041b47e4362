[package]
name = "hfb_auth"
version = "0.1.0"
edition = "2021"
publish = false

[dependencies]
horfimbor-eventsource = "=0.5.0"
kurrentdb = "=1.2.0"
url = { version = "=2.5.8", features = ["serde"] }
rand = "=0.9.5"
chrono = { version = "=0.4.45", features = ["serde"] }
uuid = { version = "=1.29.0", features = ["v4", "v5", "v8"] }
argon2 = "=0.5.3"
serde = { version = "=1.0.229", features = ["derive"] }
serde_json = "=1.0.154"
thiserror = "=2.0.21"
anyhow = "=1.0.104"
jsonwebtoken = "=9.3.1"
rocket = { version = "=0.5.2", features = ["secrets", "json"] }
rocket_cors = "0.6"
rocket_dyn_templates = { version = "=0.2.0", default-features = false, features = ["minijinja"] }
redis = "=1.8.1"
clap = { version = "=4.6.7", features = ["derive"] }
dotenvy = "=0.15.7"
futures = "=0.3.34"
