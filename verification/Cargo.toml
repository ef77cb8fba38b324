[package]
name = "mondrian"
version = "0.1.0"
edition = "2021"
publish = false

[dependencies]
rust-argon2 = "*"
chrono = "0.4"
jsonwebtoken = "9"
serde = { version = "1", features = ["derive"] }
serde_derive = "1"
actix-web = "4"
actix-http = "3"
actix-rt = "2"
actix-identity = "*"
actix-session = { version = "*", features = ["cookie-session"] }
futures = "0.3"
diesel = { version = "2", features = ["postgres", "r2d2", "chrono"] }
r2d2 = "*"
dotenv = "*"
env_logger = "*"
failure = "*"
lazy_static = "*"
