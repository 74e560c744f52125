[package]
name = "ambry"
version = "0.1.0"
edition = "2021"
publish = false

[dependencies]
regex = "=1.13.1"
rand = "=0.9.5"
uuid = { version = "=1.29.0", features = ["v4"] }
chrono = "=0.4.45"
serde = { version = "=1.0.229", features = ["derive"] }
serde_json = { version = "=1.0.154", features = ["preserve_order"] }
anyhow = "=1.0.104"
rusqlite = "=0.41.1"
postgres = { version = "=0.19.14", features = ["with-chrono-0_4", "with-uuid-1", "with-serde_json-1"] }
postgres-native-tls = "=0.5.3"
native-tls = "=0.2.18"
mysql = "=28.0.4"
