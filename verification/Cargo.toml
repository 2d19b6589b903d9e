[package]
name = "auth_core"
version = "0.1.0"
edition = "2021"
publish = false

[dependencies]
actix-cors = "0.6"
actix-web = { version = "4", default-features = false, features = ["macros", "compress-gzip"] }
actix-web-grants = "3"
actix-web-httpauth = "0.8"
bson = { version = "2", features = ["chrono-0_4"] }
chrono = "0.4"
derive_more = "0.99"
dotenv = "0.15"
futures = "0.3"
jsonwebtoken = "9"
log = "0.4"
log4rs = "1"
mongodb = "2"
nanoid = "0.4"
rand = "0.9"
reqwest = { version = "0.11", default-features = false, features = ["json", "rustls-tls"] }
rust-argon2 = "2"
serde = { version = "1", features = ["derive"] }
serde_json = "1"
validator = "0.16"
