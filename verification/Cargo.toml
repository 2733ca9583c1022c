[package]
name = "reacher"
version = "0.1.0"
edition = "2021"
publish = false

[dependencies]
chrono = "0.4"
serde = { version = "1", features = ["derive"] }
serde_json = "1"
anyhow = "1"
tracing = "0.1"
lapin = "2"
reqwest = { version = "0.11", default-features = false, features = ["json"] }
sqlx = { version = "0.7", default-features = false, features = ["postgres", "runtime-tokio", "json"] }
warp = "0.3"
tokio = { version = "1", features = ["macros", "rt-multi-thread"] }
async-smtp = "0.3"
