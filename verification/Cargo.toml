[package]
name = "quicktick"
version = "0.1.0"
edition = "2021"
publish = false

[dependencies]
axum = { version = "0.6", features = ["ws"] }
bcrypt = "0.15"
dotenv = "0.15"
http = "0.2"
rand = "0.8"
serde = { version = "1", features = ["derive"] }
serde_json = "1"
sqlx = { version = "0.7", default-features = false, features = ["runtime-tokio", "mysql"] }
tokio = { version = "1", features = ["macros", "rt-multi-thread"] }
tower-cookies = "0.9"
tower-http = { version = "0.4", features = ["cors"] }
