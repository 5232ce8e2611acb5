[package]
name = "iroh_bridge"
version = "0.1.0"
edition = "2021"
publish = false

[dependencies]
iroh = "*"
iroh-base = "*"
iroh-tickets = "*"
rand = "*"
serde = { version = "*", features = ["derive"] }
serde_json = "*"
tokio = { version = "*", features = ["full"] }
tokio-util = "*"
