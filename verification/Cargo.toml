[package]
name = "ascii_deck"
version = "0.1.0"
edition = "2021"
publish = false

[dependencies]
serde = { version = "=1.0.229", features = ["derive"] }
serde_json = "=1.0.154"
starship-battery = "=0.12.0"
tokio = { version = "=1.54.1", features = ["rt"] }
zbus = "=5.19.0"
