[package]
name = "announcer"
version = "0.1.0"
edition = "2021"
publish = false

[dependencies]
serde_json = "=1.0.151"
rand = "=0.8.8"
crossterm = "=0.27.0"
dotenv = "=0.15.0"
env_logger = "=0.10.2"
log = "=0.4.34"
reqwest = { version = "0.11", default-features = false, features = ["blocking", "json"] }
rusoto_core = { version = "0.48", default-features = false, features = ["rustls"] }
rusoto_credential = "0.48"
rusoto_polly = { version = "0.48", default-features = false, features = ["rustls"] }
tokio = { version = "1", features = ["rt"] }
