[package]
name = "rucord"
version = "0.1.0"
edition = "2021"
publish = false

[dependencies]
serde_json = "*"
rand = "*"
serde = { version = "*", features = ["derive"] }
tokio = { version = "*", features = ["rt", "rt-multi-thread", "macros", "time", "sync"] }
futures = "*"
async-tungstenite = { version = "*", features = ["tokio-runtime"] }
kanal = "*"
reqwest = { version = "*", default-features = false, features = ["json"] }
async-trait = "*"
