[package]
name = "myotel"
version = "0.1.0"
edition = "2021"
publish = false

[dependencies]
opentelemetry = "0.24"
opentelemetry_sdk = { version = "0.24", features = ["rt-tokio"] }
opentelemetry-stdout = { version = "0.5", features = ["trace", "logs", "metrics"] }
opentelemetry-otlp = { version = "0.17", features = ["grpc-tonic", "trace", "logs", "metrics"] }
opentelemetry-appender-tracing = "0.5"
opentelemetry-semantic-conventions = "0.16"
tracing = "0.1"
tracing-subscriber = { version = "0.3", features = ["env-filter"] }
tracing-opentelemetry = "0.25"
tokio = { version = "1", features = ["rt", "rt-multi-thread", "time", "sync", "macros"] }
tokio-context = "0.1"
anyhow = "1"
sulid = "*"
