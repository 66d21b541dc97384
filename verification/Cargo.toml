[package]
name = "prism_query"
version = "0.1.0"
edition = "2021"
publish = false

[dependencies]
serde_json = "=1.0.154"
datafusion = { version = "=53.1.0", default-features = false }
