[package]
name = "waifud"
version = "0.1.0"
edition = "2021"
publish = false

[dependencies]
anyhow = "=1.0.104"
axum = "=0.5.17"
chrono = { version = "=0.4.45", features = ["serde"] }
clap = { version = "*", features = ["derive"] }
clap_complete = "*"
clap_mangen = "*"
dirs = "*"
edit = "*"
hyper = { version = "=0.14.32", features = ["full"] }
hyperlocal = "=0.8.0"
mac_address = "=1.2.1"
names = { version = "=0.14.0", default-features = false }
rand = "=0.8.8"
reqwest = { version = "=0.11.27", default-features = false, features = ["json"] }
rusqlite = { version = "=0.40.2", features = ["bundled"] }
rusqlite_migration = "=2.6.0"
scraper = "*"
serde = { version = "=1.0.229", features = ["derive"] }
serde_dhall = { version = "=0.13.0", default-features = false }
serde_json = "=1.0.154"
serde_yaml = "=0.8.26"
tabular = "*"
tokio = { version = "=1.54.1", features = ["full"] }
tower = { version = "=0.4.13", features = ["limit"] }
tower-http = { version = "=0.3.5", features = ["trace"] }
tracing = "=0.1.44"
tracing-subscriber = "=0.3.23"
url = "=2.5.8"
uuid = { version = "=1.29.0", features = ["v4"] }
virt = "=0.2.12"
