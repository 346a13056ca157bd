[package]
name = "gpt_screenshot"
version = "0.1.0"
edition = "2021"
publish = false

[dependencies]
base64 = "0.21"
image = { version = "0.24", default-features = false, features = ["png"] }
chrono = "0.4"
serde = { version = "1", features = ["derive"] }
serde_json = "1"
async-openai = "0.17"
futures = "0.3"
tokio = { version = "1", features = ["rt-multi-thread", "macros"] }
