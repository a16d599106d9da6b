[package]
name = "foil"
version = "0.1.0"
edition = "2021"
publish = false

[dependencies]
sqlx = { version = "0.6", default-features = false, features = ["sqlite", "runtime-tokio-rustls"] }
futures = "0.3"
serde_json = "1"
chrono = "0.4"
