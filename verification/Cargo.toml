[package]
name = "todo_lists"
version = "0.1.0"
edition = "2021"
publish = false

[dependencies]
argon2 = "=0.5.3"
chrono = { version = "=0.4.45", features = ["serde"] }
uuid = { version = "=1.29.0", features = ["v4", "serde"] }
serde = { version = "=1.0.229", features = ["derive"] }
thiserror = "=1.0.69"
sqlx = { version = "=0.8.6", default-features = false, features = ["sqlite", "runtime-tokio", "chrono", "uuid", "macros", "migrate"] }
tokio = { version = "=1.54.1", features = ["full"] }
axum = "=0.7.9"
tower-sessions = "=0.13.0"
dioxus = { version = "=0.6.3", features = ["fullstack", "router", "server"] }
dioxus-sdk = { version = "=0.6.0", features = ["storage"] }
