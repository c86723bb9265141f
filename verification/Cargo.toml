[package]
name = "fightingtinder"
version = "0.1.0"
edition = "2021"
publish = false

[dependencies]
actix-multipart = "0.3"
actix-session = "0.4"
actix-web = "3"
bcrypt = "0.8"
diesel = { version = "1.4", features = ["postgres", "r2d2"] }
dotenv = "0.15"
futures-util = "0.3"
r2d2_redis = "0.13"
serde = { version = "1", features = ["derive"] }
serde_json = "1"
