[package]
name = "lemonsqueezy"
version = "0.1.0"
edition = "2021"
publish = false

[dependencies]
serde = { version = "*", features = ["derive"] }
serde_json = "*"
reqwest = { version = "*", default-features = false, features = ["form", "json"] }
tokio = { version = "*", features = ["macros", "rt-multi-thread"] }
dotenv = "*"
