[package]
name = "kafka_settings"
version = "0.1.0"
edition = "2021"
publish = false

[dependencies]
rdkafka = "*"
serde = { version = "1", features = ["derive"] }
uuid = { version = "1", features = ["v4"] }
