[package]
name = "service_errors"
version = "0.1.0"
edition = "2021"
publish = false

[dependencies]
actix-web = { version = "4", default-features = false }
git2 = { version = "*", default-features = false }
reqwest = { version = "*", default-features = false }
serde_json = "1"
