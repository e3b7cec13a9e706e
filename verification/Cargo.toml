[package]
name = "quake"
version = "0.1.0"
edition = "2021"
publish = false

[dependencies]
arc-malachitebft-core-types = "*"
axum = "*"
clap = { version = "4", features = ["derive"] }
clap-verbosity-flag = { version = "3", features = ["tracing"], default-features = false }
color-eyre = "0.6"
eyre = "0.6"
humantime = "2"
rmcp = { version = "*", features = ["server", "macros", "transport-io", "transport-streamable-http-server"] }
schemars = "1"
serde = { version = "1", features = ["derive"] }
serde_json = "1"
tokio = { version = "1", features = ["full"] }
tracing = "0.1"
tracing-subscriber = { version = "0.3", features = ["env-filter"] }
