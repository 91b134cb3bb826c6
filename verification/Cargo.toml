[package]
name = "authcore"
version = "0.1.0"
edition = "2021"
publish = false

[dependencies]
bcrypt = "=0.19.3"
jsonwebtoken = { version = "=11.1.0", features = ["rust_crypto"] }
uuid = { version = "=1.27.0", features = ["v4"] }
serde_json = "=1.0.151"
time = { version = "=0.3.55", features = ["parsing"] }
serde = { version = "=1.0.229", features = ["derive"] }
chrono = "=0.4.45"
actix-web = { version = "=4.15.0", default-features = false, features = ["macros"] }
actix-cors = "=0.7.2"
dotenv = "=0.15.0"
env_logger = "=0.11.11"
log = "=0.4.34"
futures = "=0.3.34"
lettre = { version = "=0.11.23", default-features = false, features = ["smtp-transport", "builder"] }
