[package]
name = "zknotes_core"
version = "0.1.0"
edition = "2021"
publish = false

[dependencies]
actix-files = "=0.7.0"
actix-session = { version = "=0.11.0", features = ["cookie-session"] }
actix-web = "=4.15.0"
chrono = "=0.4.45"
clap = "=4.6.7"
env_logger = "=0.11.11"
log = "=0.4.34"
serde = { version = "=1.0.229", features = ["derive"] }
serde_json = "=1.0.151"
timer = "=0.2.0"
toml = "=1.1.7"
