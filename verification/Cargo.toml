[package]
name = "ra2a"
version = "0.1.0"
edition = "2021"
publish = false

[dependencies]
uuid = { version = "1", features = ["v4", "v7"] }
chrono = { version = "0.4", default-features = false, features = ["clock", "std"] }
serde = { version = "1", features = ["derive"] }
serde_json = "1"
base64 = "0.22"
url = "2"
reqwest = { version = "0.12", default-features = false, features = ["json"] }
thiserror = "2"
tokio = { version = "1", features = ["sync", "macros", "rt-multi-thread", "net", "time"] }
axum = "0.8"
tower-http = { version = "0.6", features = ["cors"] }
futures = "0.3"
async-trait = "0.1"
async-stream = "0.3"
pin-project-lite = "0.2"
tracing = "0.1"
sqlx = { version = "0.8", default-features = false, features = ["runtime-tokio", "sqlite"] }
