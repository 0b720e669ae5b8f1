[package]
name = "preflight"
version = "0.1.0"
edition = "2021"
publish = false

[dependencies]
base64 = "=0.13.1"
colored = "=2.2.0"
reqwest = { version = "=0.11.27", features = ["native-tls"] }
semver = "=1.0.28"
serde_json = "=1.0.154"
tokio = { version = "=1.54.1", features = ["macros", "rt-multi-thread"] }
