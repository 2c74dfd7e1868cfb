[package]
name = "influxdb_rs"
version = "0.2.0"
edition = "2021"
publish = false

[dependencies]
futures = "0.3"
reqwest = { version = "0.11", default-features = false, features = ["json", "rustls-tls"] }
rocket = { version = "0.5", default-features = false, features = ["json"] }
rocket_db_pools = "*"
serde = { version = "1", features = ["derive"] }
serde_json = "1"
url = "2"
