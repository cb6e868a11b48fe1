[package]
name = "climacampo"
version = "0.1.0"
edition = "2021"
publish = false

[dependencies]
mongodb = "3"
bcrypt = "0.15"
uuid = { version = "1", features = ["v4"] }
chrono = "0.4"
actix-web = "4"
futures = "0.3"
serde = { version = "1", features = ["derive"] }
dotenv = "0.15"
