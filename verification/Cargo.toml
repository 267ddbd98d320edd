[package]
name = "rukaidata"
version = "0.1.0"
edition = "2021"
publish = false

[dependencies]
sha2 = "=0.10.9"
minifier = "=0.4.0"
clap = { version = "=4.6.7", features = ["derive"] }
serde = { version = "=1.0.229", features = ["derive"] }
serde_json = "=1.0.154"
flate2 = "=1.1.10"
anyhow = "=1.0.104"
log = "=0.4.35"
brawllib_rs = "=0.30.0"
handlebars = "*"
bincode = { version = "2", features = ["serde"] }
base64 = "*"
env_logger = "*"
anstyle = "*"
