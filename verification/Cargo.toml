[package]
name = "planning_poker"
version = "0.1.0"
edition = "2021"
publish = false

[dependencies]
actix = "=0.13.5"
actix-cors = "=0.7.2"
actix-files = "=0.6.10"
actix-multipart = "=0.6.2"
actix-web = { version = "=4.18.1", default-features = false, features = ["macros", "ws"] }
actix-web-actors = "=4.3.1"
bcrypt = "=0.15.1"
dotenv = "=0.15.0"
env_logger = "=0.10.2"
futures-util = "=0.3.34"
image = { version = "=0.24.9", default-features = false, features = ["jpeg", "png"] }
jsonwebtoken = "=8.3.0"
mongodb = "=2.8.2"
rand = "=0.8.8"
serde = { version = "=1.0.229", features = ["derive"] }
serde_json = "=1.0.154"
uuid = { version = "=1.29.0", features = ["v4"] }
