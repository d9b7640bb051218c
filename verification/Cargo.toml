[package]
name = "ecom_api"
version = "0.1.0"
edition = "2021"
publish = false

[dependencies]
actix-web = { version = "4", default-features = false, features = ["macros"] }
chrono = "0.4"
futures = "0.3"
futures-util = "0.3"
jsonwebtoken = "9"
mongodb = "2"
pwhash = "1"
serde = { version = "1", features = ["derive"] }
serde_json = { version = "1", features = ["preserve_order"] }
