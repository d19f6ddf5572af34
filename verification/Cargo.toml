[package]
name = "paste_share"
version = "0.1.0"
edition = "2021"
publish = false

[dependencies]
argon2 = "=0.6.0"
password-hash = { version = "=0.6.1", features = ["alloc", "getrandom"] }
uuid = { version = "=1.27.0", features = ["v4"] }
chrono = "=0.4.45"
axum = "=0.8.9"
axum-extra = { version = "=0.12.6", features = ["cookie"] }
tokio = { version = "=1.53.2", features = ["rt-multi-thread", "macros", "net"] }
tower-cookies = "=0.11.0"
serde = { version = "=1.0.229", features = ["derive"] }
serde_json = "=1.0.151"
time = "=0.3.55"
reqwest = { version = "=0.13.5", default-features = false, features = ["form"] }
