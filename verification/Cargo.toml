[package]
name = "fluxer"
version = "0.1.0"
edition = "2021"
publish = false

[dependencies]
serde = { version = "*", features = ["derive"] }
serde_json = "*"
rand = "*"
tokio = { version = "*", features = ["rt-multi-thread", "macros", "time", "sync", "process", "io-util"] }
tokio-tungstenite = "*"
futures = "*"
async-trait = "*"
reqwest = { version = "*", default-features = false, features = ["json"] }
livekit = "*"
