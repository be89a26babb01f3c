[package]
name = "nevermind"
version = "0.1.0"
edition = "2021"
publish = false

[dependencies]
chrono = { version = "0.4", features = ["serde"] }
serde = { version = "1", features = ["derive"] }
serde_json = "1"
url = "2"
uuid = { version = "1", features = ["v4"] }
thiserror = "1"
async-trait = "0.1"
sqlx = { version = "0.8", default-features = false, features = ["sqlite", "runtime-tokio", "chrono", "migrate", "macros"] }
tokio = { version = "1", features = ["rt-multi-thread", "macros", "sync"] }
reqwest = { version = "0.12", default-features = false, features = ["json", "rustls-tls"] }
dirs = "5"
dotenvy = "0.15"
tracing = "0.1"
image = { version = "0.25", default-features = false, features = ["png"] }
