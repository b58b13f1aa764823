[package]
name = "vizql_app"
version = "0.1.0"
edition = "2021"
publish = false

[dependencies]
deadpool = { version = "=0.13.1", default-features = false, features = ["managed"] }
deadpool-postgres = "=0.14.2"
once_cell = "=1.21.4"
tokio-postgres = "=0.7.18"
