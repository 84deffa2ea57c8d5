[package]
name = "song_resolver"
version = "0.1.0"
edition = "2021"
publish = false

[dependencies]
actix-web = "*"
awc = "*"
log = "*"
opentelemetry = "*"
opentelemetry-appender-log = "*"
opentelemetry-instrumentation-actix-web = { version = "*", features = ["awc"] }
opentelemetry-otlp = "*"
opentelemetry-resource-detectors = "*"
opentelemetry_sdk = "*"
opentelemetry-semantic-conventions = { version = "*", features = ["semconv_experimental"] }
serde = { version = "*", features = ["derive"] }
serde_json = "*"
tokio = { version = "*", features = ["rt"] }
tokio-postgres = "*"
urlencoding = "*"
