[package]
name = "gateway"
version = "0.1.0"
edition = "2021"
publish = false

[dependencies]
anyhow = "*"
axum = "*"
clap = { version = "*", features = ["derive"] }
config = { version = "*", default-features = false, features = ["toml"] }
nix = { version = "*", features = ["fs"] }
serde = { version = "*", features = ["derive"] }
serde_json = "*"
time = { version = "*", features = ["serde", "macros"] }
tokio = { version = "*", features = ["rt-multi-thread", "macros", "signal", "net", "time", "sync"] }
tower-http = { version = "*", features = ["limit"] }
tracing = "*"
tracing-subscriber = { version = "*", features = ["env-filter", "json"] }
