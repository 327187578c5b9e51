[package]
name = "adi_cli"
version = "0.8.8"
edition = "2021"
publish = false

[dependencies]
anyhow = "1"
async-trait = "0.1"
atty = "0.2"
axum = "0.8"
clap = { version = "4", features = ["derive"] }
clap_complete = "4"
console = "0.15"
dialoguer = "0.11"
dirs = "6"
dotenvy = "0.15"
flate2 = "1"
hostname = "0.4"
indicatif = "0.17"
libc = "0.2"
reqwest = { version = "0.12", default-features = false, features = ["json"] }
rkyv = "0.8"
serde = { version = "1", features = ["derive"] }
serde_json = "1"
tar = "0.4"
thiserror = "2"
tokio = { version = "1", features = ["full"] }
toml = "0.8"
tower-http = { version = "0.6", features = ["cors", "trace"] }
tracing = "0.1"
tracing-subscriber = { version = "0.3", features = ["env-filter"] }
zip = { version = "2", default-features = false, features = ["deflate"] }
