[package]
name = "kiwi_mcp_tools"
version = "0.1.0"
edition = "2021"
publish = false

[dependencies]
chrono = "*"
serde_json = "*"
anyhow = "*"
reqwest = { version = "*", default-features = false, features = ["blocking", "rustls-tls"] }
