[package]
name = "metalkit"
version = "0.2.3"
edition = "2021"
publish = false

[dependencies]
apple-cf = "*"
apple-metal = ">=0.5, <0.9"
libc = "0.2"
serde = { version = "1", features = ["derive"] }
serde_json = "1"
