[package]
name = "retry_connector"
version = "0.1.0"
edition = "2021"
publish = false

[dependencies]
bytes = "1"
actix-http = "3"
actix-service = "2"
actix-web = { version = "4", default-features = false }
awc = { version = "3", default-features = false }
futures = "0.3"
