[package]
name = "estimates"
version = "0.1.0"
edition = "2021"
publish = false

[dependencies]
async-trait = "*"
chrono = "*"
derive_more = { version = "*", features = ["display", "from"] }
serde = { version = "*", features = ["derive"] }
serde_json = "*"
serde_with = "*"
tokio = { version = "*", features = ["macros", "rt-multi-thread", "sync"] }
uuid = { version = "*", features = ["v4"] }
