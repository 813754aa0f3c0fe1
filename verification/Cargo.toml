[package]
name = "influxdb"
version = "0.1.0"
edition = "2021"
publish = false

[dependencies]
syn = "1"
url = "*"
reqwest = { version = "*", default-features = false }
serde = { version = "*", features = ["derive"] }
serde_json = "*"
