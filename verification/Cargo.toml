[package]
name = "acp_provider"
version = "0.1.0"
edition = "2021"
publish = false

[dependencies]
agent-client-protocol-schema = { version = "=0.11.7", features = ["unstable"] }
anyhow = "=1.0.104"
async-stream = "=0.3.6"
async-trait = "=0.1.92"
futures = "=0.3.34"
rmcp = "=1.8.0"
sacp = "=11.0.0"
serde_json = "=1.0.154"
tokio = { version = "=1.54.1", features = ["full"] }
tokio-util = { version = "=0.7.20", features = ["compat"] }
tracing = "=0.1.44"
