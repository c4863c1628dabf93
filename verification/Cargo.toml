[package]
name = "order_service"
version = "0.1.0"
edition = "2021"
publish = false

[dependencies]
actix-web = "3"
chrono = { version = "0.4", features = ["serde"] }
diesel = { version = "1.4", features = ["postgres", "r2d2", "uuidv07", "chrono"] }
dotenv = "0.15"
env_logger = "0.8"
jsonwebtoken = "7"
serde = { version = "1", features = ["derive"] }
serde_json = "1"
uuid = { version = "0.8", features = ["v4", "serde"] }
