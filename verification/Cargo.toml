[package]
name = "coordinator"
version = "0.1.0"
edition = "2021"
publish = false

[dependencies]
axum = "0.6"
dotenv = "0.15"
hyprtxt = "*"
reqwest = { version = "0.11", default-features = false, features = ["json"] }
serde = { version = "1", features = ["derive"] }
serde-big-array = "*"
tokio = { version = "1", features = ["macros", "rt-multi-thread", "sync", "time"] }
