[package]
name = "supabase_migrate"
version = "0.1.0"
edition = "2021"
publish = false

[dependencies]
axum = "=0.8.9"
dotenvy = "=0.15.7"
oauth2 = { version = "=5.0.0", default-features = false }
reqwest = { version = "=0.13.5", features = ["form", "json"] }
serde = { version = "=1.0.229", features = ["derive"] }
serde_json = "=1.0.154"
time = "=0.3.55"
tokio = { version = "=1.54.1", features = ["macros", "rt-multi-thread", "net"] }
tower-http = { version = "=0.7.1", features = ["cors"] }
tower-sessions = "=0.15.0"
