[package]
name = "zero2prod"
version = "0.1.0"
edition = "2021"
publish = false

[dependencies]
actix-web = { version = "3", default-features = false }
chrono = "0.4"
config = "0.10"
rand = "0.8"
reqwest = { version = "0.11", default-features = false, features = ["json", "rustls-tls"] }
serde = { version = "1", features = ["derive"] }
sqlx = { version = "0.5", default-features = false, features = ["runtime-actix-rustls", "postgres", "uuid", "chrono"] }
tracing = "0.1"
tracing-actix-web = "0.2"
url = "2"
uuid = { version = "0.8", features = ["v4"] }
