[package]
name = "haproxy_otel"
version = "0.1.0"
edition = "2021"
publish = false

[dependencies]
const-hex = "=1.19.3"
quick_cache = "=0.7.0"
opentelemetry = "=0.32.0"
opentelemetry_sdk = "=0.32.0"
opentelemetry-otlp = { version = "=0.32.0", default-features = false, features = ["trace", "http-proto", "http-json", "reqwest-blocking-client"] }
opentelemetry-jaeger-propagator = "=0.32.0"
opentelemetry-zipkin = "=0.32.0"
opentelemetry-semantic-conventions = "=0.32.1"
