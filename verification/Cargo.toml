[package]
name = "pg_session_store"
version = "0.1.0"
edition = "2021"
publish = false

[dependencies]
async-trait = "0.1"
deadpool-postgres = "*"
rmp-serde = "1"
thiserror = "*"
time = "0.3"
tokio-postgres = { version = "0.7", features = ["with-time-0_3"] }
tower-sessions-core = "*"
