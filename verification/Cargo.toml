[package]
name = "kilo_airdrop"
version = "0.1.0"
edition = "2021"
publish = false

[dependencies]
futures = "0.3"
reqwest = { version = "0.12", features = ["json"] }
serde = { version = "1", features = ["derive"] }
tokio = { version = "1", features = ["fs", "io-util", "macros", "rt-multi-thread", "time"] }
