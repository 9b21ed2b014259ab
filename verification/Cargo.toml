[package]
name = "pristine"
version = "0.1.0"
edition = "2021"
publish = false

[dependencies]
anyhow = "=1.0.104"
chrono = "=0.4.45"
dotenvy = "=0.15.7"
git2 = { version = "=0.21.0", default-features = false }
octocrab = "=0.43.0"
openai = "=1.1.1"
serde = { version = "=1.0.229", features = ["derive"] }
serde_json = "=1.0.151"
tempfile = "=3.27.0"
tokio = { version = "=1.53.2", features = ["full"] }
walkdir = "=2.5.0"
