[package]
name = "auth_core"
version = "0.1.0"
edition = "2021"
publish = false

[dependencies]
axum = "=0.8.9"
bcrypt = "=0.19.3"
chrono = "=0.4.45"
dotenv = "=0.15.0"
jsonwebtoken = { version = "=11.1.0", features = ["rust_crypto"] }
lettre = { version = "=0.11.23", default-features = false, features = ["smtp-transport", "builder"] }
rand = "=0.8.8"
serde = { version = "=1.0.229", features = ["derive"] }
serde_json = "=1.0.151"
tokio = { version = "=1.53.2", features = ["rt-multi-thread", "macros", "net"] }
