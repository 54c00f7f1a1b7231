[package]
name = "otel_http_span"
version = "0.1.0"
edition = "2021"
publish = false

[dependencies]
hyper = "*"
http = "*"
opentelemetry = "*"

[dev-dependencies]
opentelemetry_sdk = { version = "*", features = ["testing"] }
