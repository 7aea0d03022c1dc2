[package]
name = "flytrap"
version = "0.1.0"
edition = "2021"
publish = false

[dependencies]
serde_json = "*"
http = "*"
url = "*"
uuid = { version = "*", features = ["v4"] }
serde = { version = "*", features = ["derive"] }
tokio = { version = "*", features = ["rt-multi-thread", "macros", "net"] }
axum = "*"
reqwest = { version = "*", default-features = false, features = ["json"] }
sqlx = { version = "*", default-features = false, features = ["mysql", "runtime-tokio", "uuid", "chrono", "json"] }
chrono = "*"
clap = { version = "*", features = ["derive"] }
toml = "*"
