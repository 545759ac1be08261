[package]
name = "validated_query"
version = "0.1.0"
edition = "2021"
publish = false

[dependencies]
actix-web = { version = "3", default-features = false }
futures = "0.3"
validator = "0.14"
