[package]
name = "verification_mailer"
version = "0.1.0"
edition = "2021"
publish = false

[dependencies]
axum = "0.8"
dotenvy = "0.15"
lettre = { version = "0.11", default-features = false, features = ["builder", "smtp-transport", "native-tls", "hostname"] }
serde = { version = "1", features = ["derive"] }
serde-email = "*"
serde_json = "1"
tokio = { version = "1", features = ["rt-multi-thread", "macros", "net"] }
