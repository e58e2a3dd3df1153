[package]
name = "balthazar"
version = "0.1.0"
edition = "2021"
publish = false

[dependencies]
async-trait = "0.1"
axum = "0.5"
base64 = "=0.21.7"
chrono = { version = "=0.4.45", default-features = false, features = ["std"] }
clap = { version = "3", features = ["derive", "env"] }
color-eyre = "0.6"
ethereum-types = "0.14"
eyre = "=0.6.14"
futures-util = "0.3"
http = "0.2"
metrics = "0.20"
once_cell = "1"
opentelemetry = { version = "0.17", features = ["rt-tokio"] }
opentelemetry-jaeger = { version = "0.16", features = ["rt-tokio", "collector_client"] }
quickcheck = "1"
reqwest = { version = "0.11", default-features = false }
reqwest-middleware = "0.2"
serde = { version = "1", features = ["derive"] }
serde_json = "=1.0.154"
strum = "0.24"
thiserror = "1"
time = "0.3"
tokio = { version = "1", features = ["macros", "rt-multi-thread", "time"] }
tower-http = { version = "0.3", features = ["trace", "request-id"] }
tracing = "0.1"
tracing-opentelemetry = "0.17"
tracing-serde = "0.1"
tracing-subscriber = { version = "0.3", features = ["env-filter"] }
tracing-tree = "0.2"
uuid = { version = "=1.29.0", features = ["v4"] }
