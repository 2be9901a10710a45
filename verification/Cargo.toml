[package]
name = "pgdecode"
version = "0.1.0"
edition = "2021"
publish = false

[dependencies]
serde_json = "1"
time = { version = "0.3", features = ["formatting"] }
sqlx = { version = "0.7", default-features = false, features = ["postgres", "json", "time", "runtime-tokio"] }
