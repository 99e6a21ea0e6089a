[package]
name = "prism_mcp_rs"
version = "0.1.0"
edition = "2021"
publish = false

[dependencies]
async-trait = "*"
axum = "*"
brotli = "*"
bytes = "*"
chrono = "*"
flate2 = "*"
futures = "*"
futures-util = "*"
h2 = "*"
hyper-util = { version = "*", features = ["tokio", "server", "server-auto", "service"] }
opentelemetry = "*"
opentelemetry-otlp = "*"
opentelemetry_sdk = "*"
reqwest = { version = "*", default-features = false, features = ["json", "stream"] }
rustls = { version = "*", default-features = false, features = ["ring", "std"] }
serde = { version = "1", features = ["derive"] }
serde_json = "1"
tokio = { version = "1", features = ["full"] }
tokio-rustls = { version = "*", default-features = false, features = ["ring"] }
tokio-stream = { version = "*", features = ["sync"] }
tokio-tungstenite = "*"
tokio-util = "*"
tower = "*"
tower-http = { version = "*", features = ["cors"] }
tracing = "*"
tracing-opentelemetry = "*"
tracing-subscriber = { version = "*", features = ["env-filter"] }
url = "2"
uuid = { version = "1", features = ["v4"] }
zstd = "*"
