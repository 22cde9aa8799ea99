[package]
name = "ezbrowsergameserver"
version = "0.1.0"
edition = "2021"
publish = false

[dependencies]
async-trait = "*"
futures-util = "*"
tokio = { version = "*", features = ["full"] }
tokio-tungstenite = "*"
