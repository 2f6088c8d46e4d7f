[package]
name = "dota2_scripts"
version = "0.1.0"
edition = "2021"
publish = false

[dependencies]
rand = "0.9"
self_update = { version = "0.41", default-features = false }
serde = { version = "1", features = ["derive"] }
serde_json = "1"
toml = "0.8"
tokio = { version = "1", features = ["rt-multi-thread", "macros", "sync", "net"] }
axum = { version = "0.7", default-features = false, features = ["tokio", "http1", "json"] }
chrono = { version = "0.4", default-features = false, features = ["clock"] }
tracing = "0.1"
tracing-subscriber = { version = "0.3", features = ["env-filter"] }
enigo = "0.2"
rdev = "0.5"
