[package]
name = "server_bootstrap"
version = "0.1.0"
edition = "2021"
publish = false

[dependencies]
actix-web = "4"
serde = { version = "1", features = ["derive"] }
sqlx = { version = "*", default-features = false, features = ["postgres", "runtime-tokio"] }
tracing-actix-web = "*"
