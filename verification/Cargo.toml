[package]
name = "confession_bot"
version = "0.1.0"
edition = "2021"
publish = false

[dependencies]
twox-hash = { version = "1", default-features = false }
serde = { version = "1", features = ["derive"] }
poise = "0.5"
sea-orm = { version = "0.12", default-features = false, features = ["macros"] }
anyhow = "1"
tracing = "0.1"
tokio = { version = "1", features = ["macros", "rt-multi-thread"] }
