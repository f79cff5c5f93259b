[package]
name = "atask"
version = "0.1.0"
edition = "2021"
publish = false

[dependencies]
chrono = "=0.4.45"
serde_json = "=1.0.154"
pulldown-cmark = "=0.13.5"
git2 = { version = "=0.21.0", default-features = false }
anyhow = "=1.0.104"
askama = "=0.12.1"
axum = "=0.7.9"
clap = { version = "=4.6.7", features = ["derive"] }
libsql = { version = "=0.10.0", default-features = false, features = ["core"] }
octocrab = "=0.40.0"
serde = { version = "=1.0.229", features = ["derive"] }
tokio = { version = "=1.54.1", features = ["rt-multi-thread", "macros", "net"] }
