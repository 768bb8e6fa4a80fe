[package]
name = "webhook"
version = "0.1.0"
edition = "2021"
publish = false

[dependencies]
actix-web = { version = "4", default-features = false, features = ["macros"] }
actix-multipart = { version = "0.6", default-features = false }
futures = "0.3"
