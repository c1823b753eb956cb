[package]
name = "housechat"
version = "0.1.0"
edition = "2021"
publish = false

[dependencies]
local-ip-address = "0.6"
log = "0.4"
ratatui = "0.29"
serde = { version = "1", features = ["derive"] }
serde_json = { version = "1", features = ["preserve_order"] }
simplelog = "0.12"
tokio = { version = "1", features = ["full"] }
uuid = { version = "1", features = ["v4", "serde"] }
