[package]
name = "hc_core"
version = "0.1.0"
edition = "2021"
publish = false

[dependencies]
base64 = "*"
snowflake = "*"
serde = { version = "*", features = ["derive"] }
serde_json = "*"
futures = "*"
toml = "*"
colored = "*"
