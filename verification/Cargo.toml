[package]
name = "infra_shared"
version = "0.1.0"
edition = "2021"
publish = false

[dependencies]
serde = { version = "1", features = ["derive"] }
uuid = { version = "1", features = ["v4", "serde"] }
chrono = { version = "0.4", features = ["serde"] }
tokio = { version = "1", features = ["process"] }
leptos = "0.6"
leptos_router = "0.6"
leptos_meta = "0.6"
