[package]
name = "rlink_kafka_sink"
version = "0.1.0"
edition = "2021"
publish = false

[dependencies]
rdkafka = "*"
tokio = { version = "*", features = ["rt", "time", "sync", "macros"] }
