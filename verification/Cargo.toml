[package]
name = "transaction_service"
version = "0.1.0"
edition = "2021"
publish = false

[dependencies]
actix-web = { version = "4", default-features = false, features = ["macros"] }
confik = "*"
deadpool-postgres = { version = "*", features = ["serde"] }
dotenvy = "0.15"
serde = { version = "1", features = ["derive"] }
tokio-postgres = "0.7"
