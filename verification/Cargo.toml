[package]
name = "fronius"
version = "0.1.0"
edition = "2021"
publish = false

[dependencies]
reqwest = { version = "*", default-features = false, features = ["blocking"] }
influxdb2 = "*"
influxdb2-derive = "*"
chrono = "*"
futures = "*"
tokio = { version = "*", features = ["rt-multi-thread"] }
