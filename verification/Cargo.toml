[package]
name = "dexbot"
version = "0.1.0"
edition = "2021"
publish = false

[dependencies]
hex = "*"
hmac = "*"
sha2 = "*"
rand = "*"
anyhow = "*"
async-trait = "*"
dotenv = "*"
prometheus = { version = "*", default-features = false }
reqwest = { version = "*", default-features = false, features = ["json"] }
serde = { version = "*", features = ["derive"] }
serde_json = "*"
tokio = { version = "*", features = ["macros", "rt-multi-thread", "time", "sync"] }
tracing = "*"
tracing-subscriber = "*"
