[package]
name = "bitcoin_da_client"
version = "0.1.0"
edition = "2021"
publish = false

[dependencies]
hex = "0.4.3"
serde = { version = "1.0.215", features = ["derive"] }
serde_json = "1.0.133"
reqwest = { version = "0.12.12", features = ["json"] }
tokio = { version = "1.42.0", features = ["macros", "rt-multi-thread", "time"] }
async-trait = "0.1.83"
tracing = "0.1"
tracing-subscriber = "0.3"
