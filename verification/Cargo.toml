[package]
name = "stream_session"
version = "0.1.0"
edition = "2021"
publish = false

[dependencies]
addin1c = { version = "=0.7.0", features = ["chrono"] }
chrono = "=0.4.45"
futures = "=0.3.34"
rabbitmq-stream-client = "=0.11.0"
rabbitmq-stream-protocol = "=0.11.0"
tokio = { version = "=1.53.2", features = ["rt", "time"] }
