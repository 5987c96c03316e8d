[package]
name = "openhrt"
version = "0.1.0"
edition = "2021"
publish = false

[dependencies]
macroquad = "*"
kira = "*"
tokio = { version = "*", features = ["rt-multi-thread", "macros"] }
toml = "*"
serde = { version = "*", features = ["derive"] }
tracing = "*"
tracing-subscriber = "*"
hashbrown = "*"
parking_lot = "*"
hex-literal = "*"
