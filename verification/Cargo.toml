[package]
name = "database_common_lib"
version = "0.1.2"
edition = "2021"
publish = false

[dependencies]
actix-web = "=4.18.1"
actix-files = "=0.6.10"
include_dir = "=0.7.4"
log = "=0.4.35"
reqwest = { version = "=0.12.28", default-features = false, features = ["json", "rustls-tls"] }
serde = { version = "=1.0.229", features = ["derive"] }
serde_json = "=1.0.154"
sqlx = { version = "=0.8.6", default-features = false, features = ["mysql", "runtime-tokio"] }
thiserror = "=2.0.21"
anyhow = "=1.0.104"
vite-actix = "=0.2.6"
