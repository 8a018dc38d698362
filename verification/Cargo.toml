[package]
name = "metricsd"
version = "0.1.0"
edition = "2021"
publish = false

[dependencies]
metriqs = "*"
serde = { version = "1", features = ["derive"] }
toml = "*"
