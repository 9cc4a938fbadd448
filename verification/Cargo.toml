[package]
name = "todo_client"
version = "0.1.0"
edition = "2021"
publish = false

[dependencies]
chrono = { version = "=0.4.45", features = ["serde"] }
dioxus = { version = "=0.2.4", features = ["web", "router", "fermi"] }
futures = "=0.3.34"
log = "=0.4.35"
reqwest = { version = "=0.11.27", default-features = false, features = ["json"] }
serde = { version = "=1.0.229", features = ["derive"] }
wasm-cookies = "=0.2.1"
wasm-logger = "=0.2.0"
